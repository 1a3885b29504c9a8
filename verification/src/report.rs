//! The crash reporter: what a fault is rendered as, and the link that files
//! it with the issue tracker.

use crate::text::{decimal, decimal_text, lemma_occurs_between, lemma_occurs_within, occurs_in};
use owo_colors::OwoColorize;
use vstd::prelude::*;

verus! {

/// What a fault carried with it.
#[derive(Debug, Clone, PartialEq, Eq)]
pub enum FaultPayload {
    /// Text that the fault owned.
    OwnedText(String),
    /// Text that the fault borrowed.
    BorrowedText(&'static str),
    /// Anything else.
    NonText,
}

/// What a [`FaultPayload`] stands for: its text, if it was text.
pub enum PayloadModel {
    OwnedText(Seq<char>),
    BorrowedText(Seq<char>),
    NonText,
}

impl View for FaultPayload {
    type V = PayloadModel;

    open spec fn view(&self) -> PayloadModel {
        match self {
            FaultPayload::OwnedText(s) => PayloadModel::OwnedText(s@),
            FaultPayload::BorrowedText(s) => PayloadModel::BorrowedText(s@),
            FaultPayload::NonText => PayloadModel::NonText,
        }
    }
}

/// The message of a fault: its text, or a fixed placeholder where the
/// payload was not text.
pub open spec fn payload_message(p: PayloadModel) -> Seq<char> {
    match p {
        PayloadModel::OwnedText(s) => s,
        PayloadModel::BorrowedText(s) => s,
        PayloadModel::NonText => "<non string panic payload>"@,
    }
}

/// What the attempts to read a payload as text come to. Owned text is tried
/// first and borrowed text second; where neither is there, the payload is
/// not text.
pub open spec fn classified(owned: Option<Seq<char>>, borrowed: Option<Seq<char>>) -> PayloadModel {
    match owned {
        Some(s) => PayloadModel::OwnedText(s),
        None => match borrowed {
            Some(s) => PayloadModel::BorrowedText(s),
            None => PayloadModel::NonText,
        },
    }
}

/// The text that an optional borrowed string holds.
pub open spec fn borrowed_model(text: Option<&'static str>) -> Option<Seq<char>> {
    match text {
        Some(s) => Some(s@),
        None => None,
    }
}

impl FaultPayload {
    /// Makes a payload of what the two attempts to read it as text came to:
    /// as owned text, and as borrowed text.
    pub fn from_attempts(owned: Option<String>, borrowed: Option<&'static str>) -> (r:
        FaultPayload)
        ensures
            r@ == classified(text_model(owned), borrowed_model(borrowed)),
    {
        match owned {
            Some(s) => FaultPayload::OwnedText(s),
            None => match borrowed {
                Some(s) => FaultPayload::BorrowedText(s),
                None => FaultPayload::NonText,
            },
        }
    }

    /// The message of the fault.
    pub fn message(&self) -> (r: String)
        ensures
            r@ == payload_message(self@),
    {
        match self {
            FaultPayload::OwnedText(s) => s.clone(),
            FaultPayload::BorrowedText(s) => String::from_str(s),
            FaultPayload::NonText => String::from_str("<non string panic payload>"),
        }
    }
}

/// Where in the source a fault arose.
#[derive(Debug, Clone, PartialEq, Eq)]
pub struct Location {
    pub file: String,
    pub line: u32,
    pub column: u32,
}

/// What a [`Location`] stands for.
pub struct LocationModel {
    pub file: Seq<char>,
    pub line: nat,
    pub column: nat,
}

impl View for Location {
    type V = LocationModel;

    open spec fn view(&self) -> LocationModel {
        LocationModel { file: self.file@, line: self.line as nat, column: self.column as nat }
    }
}

/// A location as text: `file:line:column`.
pub open spec fn location_text(l: LocationModel) -> Seq<char> {
    l.file + ":"@ + decimal(l.line) + ":"@ + decimal(l.column)
}

impl Location {
    /// Writes the location.
    pub fn to_text(&self) -> (r: String)
        ensures
            r@ == location_text(self@),
    {
        let mut r = self.file.clone();
        r.append(":");
        let line = decimal_text(self.line as u64);
        r.append(line.as_str());
        r.append(":");
        let column = decimal_text(self.column as u64);
        r.append(column.as_str());
        r
    }
}

/// `text` between the escape sequence `on`, which switches a colour on, and
/// the escape sequence that resets the terminal.
pub open spec fn painted(on: Seq<char>, text: Seq<char>) -> Seq<char> {
    on + text + "\x1b[0m"@
}

/// The escape sequence for a red foreground.
pub open spec fn red_on() -> Seq<char> {
    "\x1b[31m"@
}

/// The escape sequence for a cyan foreground.
pub open spec fn cyan_on() -> Seq<char> {
    "\x1b[36m"@
}

/// The escape sequence for a purple (magenta) foreground.
pub open spec fn purple_on() -> Seq<char> {
    "\x1b[35m"@
}

/// `owo_colors::OwoColorize::red`, shown: the text in a red foreground, that
/// is, after the escape sequence for red and before the reset.
#[verifier::external_body]
fn paint_red(text: &str) -> (r: String)
    ensures
        r@ == painted(red_on(), text@),
{
    format!("{}", text.red())
}

/// `owo_colors::OwoColorize::cyan`, shown: the text in a cyan foreground,
/// that is, after the escape sequence for cyan and before the reset.
#[verifier::external_body]
fn paint_cyan(text: &str) -> (r: String)
    ensures
        r@ == painted(cyan_on(), text@),
{
    format!("{}", text.cyan())
}

/// `owo_colors::OwoColorize::purple`, shown: the text in a purple
/// foreground, that is, after the escape sequence for magenta and before the
/// reset.
#[verifier::external_body]
fn paint_purple(text: &str) -> (r: String)
    ensures
        r@ == painted(purple_on(), text@),
{
    format!("{}", text.purple())
}

/// What the tool knows of itself and of its host. Each entry is there if it
/// could be found out.
#[derive(Debug, Clone, PartialEq, Eq)]
pub struct Metadata {
    pub tool_version: Option<String>,
    pub os_type: Option<String>,
    pub os_release: Option<String>,
}

/// What a [`Metadata`] stands for.
pub struct MetadataModel {
    pub tool_version: Option<Seq<char>>,
    pub os_type: Option<Seq<char>>,
    pub os_release: Option<Seq<char>>,
}

/// The text that an optional string holds.
pub open spec fn text_model(text: Option<String>) -> Option<Seq<char>> {
    match text {
        Some(s) => Some(s@),
        None => None,
    }
}

impl View for Metadata {
    type V = MetadataModel;

    open spec fn view(&self) -> MetadataModel {
        MetadataModel {
            tool_version: text_model(self.tool_version),
            os_type: text_model(self.os_type),
            os_release: text_model(self.os_release),
        }
    }
}

/// An entry of the metadata as the report shows it.
pub open spec fn or_unavailable(entry: Option<Seq<char>>) -> Seq<char> {
    match entry {
        Some(s) => s,
        None => "unavailable"@,
    }
}

/// An entry of the metadata as the report shows it.
pub fn shown(entry: &Option<String>) -> (r: &str)
    ensures
        r@ == or_unavailable(text_model(*entry)),
{
    match entry {
        Some(s) => s.as_str(),
        None => "unavailable",
    }
}

/// The body of the issue: a table of the metadata, the message and the
/// location, under a heading, and a second heading for the reporter to
/// write under.
pub open spec fn body_text(
    metadata: MetadataModel,
    message: Seq<char>,
    location: LocationModel,
) -> Seq<char> {
    "## Metadata\n|key|value|\n|--|--|\n|**version**|"@ + or_unavailable(metadata.tool_version)
        + "|\n|**os_type**|"@ + or_unavailable(metadata.os_type) + "|\n|**os_release**|"@
        + or_unavailable(metadata.os_release) + "|\n|**message**|"@ + message
        + "|\n|**location**|"@ + location_text(location) + "|\n## More info\n"@
}

/// Writes the body of the issue.
pub fn report_body(metadata: &Metadata, message: &str, location: &Location) -> (r: String)
    ensures
        r@ == body_text(metadata@, message@, location@),
{
    let mut r = String::from_str("## Metadata\n|key|value|\n|--|--|\n|**version**|");
    r.append(shown(&metadata.tool_version));
    r.append("|\n|**os_type**|");
    r.append(shown(&metadata.os_type));
    r.append("|\n|**os_release**|");
    r.append(shown(&metadata.os_release));
    r.append("|\n|**message**|");
    r.append(message);
    r.append("|\n|**location**|");
    let place = location.to_text();
    r.append(place.as_str());
    r.append("|\n## More info\n");
    r
}

/// Where issues are filed.
pub const ISSUE_ENDPOINT: &'static str = "https://github.com/christopherBiscardi/toast/issues/new";

/// The title that a filed issue starts with.
pub const ISSUE_TITLE: &'static str = "<autogenerated-issue>";

/// The URL that `url::Url::parse_with_params` makes of `base` and the
/// query parameters `params`, as text, or nothing where it refuses `base`.
pub uninterp spec fn url_with_params(
    base: Seq<char>,
    params: Seq<(Seq<char>, Seq<char>)>,
) -> Option<Seq<char>>;

/// The most characters that a base may have for a link to be built on it.
pub const BASE_LIMIT: usize = 0x1000;

/// A base on which a link can be built: it is short and holds no `#`, so
/// that it has no fragment.
pub open spec fn plain_base(base: Seq<char>) -> bool {
    &&& base.len() <= BASE_LIMIT
    &&& forall|i: int| 0 <= i < base.len() ==> base[i] != '#'
}

/// `url::Url::parse_with_params`, and the URL's text: parses `base` and
/// appends the two parameters to its query, percent-encoded. Nothing where
/// `base` is no absolute URL. The parser counts positions in 32 bits and
/// stops the program in two places: where the base alone outgrows them, and
/// where a base with a fragment does so once the parameters are appended.
/// A short base without a fragment meets neither, however long the
/// parameters are.
#[verifier::external_body]
fn link_with_params(base: &str, first: (&str, &str), second: (&str, &str)) -> (r: Option<String>)
    requires
        plain_base(base@),
    ensures
        text_model(r) == url_with_params(base@, seq![(first.0@, first.1@), (second.0@, second.1@)]),
{
    url::Url::parse_with_params(base, &[first, second]).ok().map(String::from)
}

/// The link that was built, or the bare endpoint where none was.
pub open spec fn link_or_endpoint(built: Option<Seq<char>>) -> Seq<char> {
    match built {
        Some(link) => link,
        None => ISSUE_ENDPOINT@,
    }
}

/// Settles on the link to show: the one that was built, or the bare endpoint
/// where building it failed.
pub fn settle_link(built: Option<String>) -> (r: String)
    ensures
        r@ == link_or_endpoint(text_model(built)),
{
    match built {
        Some(link) => link,
        None => String::from_str(ISSUE_ENDPOINT),
    }
}

/// The link that files an issue with the given body: the endpoint with the
/// fixed title and the body as its query, or the bare endpoint where the
/// link cannot be built.
pub open spec fn issue_link(body: Seq<char>) -> Seq<char> {
    link_or_endpoint(
        url_with_params(ISSUE_ENDPOINT@, seq![("title"@, ISSUE_TITLE@), ("body"@, body)]),
    )
}

/// The endpoint is a base on which a link can be built.
pub proof fn lemma_endpoint_is_plain()
    ensures
        plain_base(ISSUE_ENDPOINT@),
{
    reveal_strlit("https://github.com/christopherBiscardi/toast/issues/new");
}

/// Builds the link that files an issue with the given body.
pub fn link_to_issue(body: &str) -> (r: String)
    ensures
        r@ == issue_link(body@),
{
    proof {
        lemma_endpoint_is_plain();
    }
    settle_link(link_with_params(ISSUE_ENDPOINT, ("title", ISSUE_TITLE), ("body", body)))
}

/// Builds the link that files a fault with the issue tracker: the body
/// holds the metadata, the message and the location.
pub fn custom_url(metadata: &Metadata, location: &Location, message: &str) -> (r: String)
    ensures
        r@ == issue_link(body_text(metadata@, message@, location@)),
{
    let body = report_body(metadata, message, location);
    link_to_issue(body.as_str())
}

/// Where a fault arose, and the link that files it.
#[derive(Debug, Clone, PartialEq, Eq)]
pub struct ReportSite {
    pub location: Location,
    pub report_url: String,
}

/// What a [`ReportSite`] stands for.
pub struct SiteModel {
    pub location: LocationModel,
    pub report_url: Seq<char>,
}

impl View for ReportSite {
    type V = SiteModel;

    open spec fn view(&self) -> SiteModel {
        SiteModel { location: self.location@, report_url: self.report_url@ }
    }
}

/// One fault, ready to be shown: its message and, where the location is
/// known, the location with the link that files the fault.
#[derive(Debug, Clone, PartialEq, Eq)]
pub struct CrashReport {
    pub message: String,
    pub site: Option<ReportSite>,
}

/// What a [`CrashReport`] stands for.
pub struct CrashReportModel {
    pub message: Seq<char>,
    pub site: Option<SiteModel>,
}

impl View for CrashReport {
    type V = CrashReportModel;

    open spec fn view(&self) -> CrashReportModel {
        CrashReportModel {
            message: self.message@,
            site: match self.site {
                Some(site) => Some(site@),
                None => None,
            },
        }
    }
}

/// What an optional location stands for.
pub open spec fn location_model(location: Option<&Location>) -> Option<LocationModel> {
    match location {
        Some(l) => Some(l@),
        None => None,
    }
}

/// The report of a fault: the message of its payload and, where the location
/// is known, the location with the link that files the message and the
/// location together with the metadata.
pub open spec fn crash_report(
    payload: PayloadModel,
    location: Option<LocationModel>,
    metadata: MetadataModel,
) -> CrashReportModel {
    CrashReportModel {
        message: payload_message(payload),
        site: match location {
            Some(l) => Some(
                SiteModel {
                    location: l,
                    report_url: issue_link(body_text(metadata, payload_message(payload), l)),
                },
            ),
            None => None,
        },
    }
}

/// The place of a fault as the report shows it: file and line in purple and
/// an invitation to follow the link, in cyan; or a placeholder where the
/// place is not known.
pub open spec fn rendered_site(site: Option<SiteModel>) -> Seq<char> {
    match site {
        Some(s) => painted(purple_on(), s.location.file) + ":"@ + painted(
            purple_on(),
            decimal(s.location.line),
        ) + "\n\nConsider reporting the bug using this URL: "@ + painted(cyan_on(), s.report_url),
        None => "<unknown>"@,
    }
}

/// A report as it is shown: a red banner, the message in cyan, and the
/// place.
pub open spec fn rendered(report: CrashReportModel) -> Seq<char> {
    painted(red_on(), "The application panicked (crashed)."@) + "\n"@ + "Message:  "@ + painted(
        cyan_on(),
        report.message,
    ) + "\n"@ + "Location: "@ + rendered_site(report.site)
}

impl CrashReport {
    /// Makes the report of a fault from its payload, its location if that is
    /// known, and the metadata.
    pub fn new(payload: &FaultPayload, location: Option<&Location>, metadata: &Metadata) -> (r:
        CrashReport)
        ensures
            r@ == crash_report(payload@, location_model(location), metadata@),
    {
        let message = payload.message();
        let site = match location {
            Some(l) => {
                let report_url = custom_url(metadata, l, message.as_str());
                let location = Location { file: l.file.clone(), line: l.line, column: l.column };
                Some(ReportSite { location, report_url })
            },
            None => None,
        };
        CrashReport { message, site }
    }

    /// Shows the report.
    pub fn render(&self) -> (r: String)
        ensures
            r@ == rendered(self@),
    {
        let mut r = paint_red("The application panicked (crashed).");
        r.append("\n");
        r.append("Message:  ");
        let message = paint_cyan(self.message.as_str());
        r.append(message.as_str());
        r.append("\n");
        r.append("Location: ");
        match &self.site {
            Some(site) => {
                let mut place = paint_purple(site.location.file.as_str());
                place.append(":");
                let line = decimal_text(site.location.line as u64);
                let line = paint_purple(line.as_str());
                place.append(line.as_str());
                place.append("\n\nConsider reporting the bug using this URL: ");
                let link = paint_cyan(site.report_url.as_str());
                place.append(link.as_str());
                r.append(place.as_str());
            },
            None => {
                r.append("<unknown>");
            },
        }
        r
    }
}

/// `sys_info::os_type`: the family of the host's operating system, where
/// the host tells.
#[verifier::external_body]
fn host_os_type() -> Option<String> {
    sys_info::os_type().ok()
}

/// `sys_info::os_release`: the release of the host's operating system,
/// where the host tells.
#[verifier::external_body]
fn host_os_release() -> Option<String> {
    sys_info::os_release().ok()
}

/// What is shown for a fault by a tool of the given version on a host of the
/// given family and release.
pub open spec fn display_text(
    tool_version: Option<Seq<char>>,
    os_type: Option<Seq<char>>,
    os_release: Option<Seq<char>>,
    payload: PayloadModel,
    location: Option<LocationModel>,
) -> Seq<char> {
    rendered(crash_report(payload, location, MetadataModel { tool_version, os_type, os_release }))
}

/// The crash reporter of a tool.
#[derive(Debug, Clone, PartialEq, Eq)]
pub struct CrashReporter {
    /// The version of the tool, if it is known.
    pub tool_version: Option<String>,
}

impl CrashReporter {
    /// Shows a fault: asks the host for its family and release where the
    /// location is known, makes the report and renders it. What the host
    /// answers is not known beforehand; whatever it answers, the result is
    /// the rendered report of this fault with that answer in the metadata.
    pub fn display(&self, payload: &FaultPayload, location: Option<&Location>) -> (r: String)
        ensures
            exists|os_type: Option<Seq<char>>, os_release: Option<Seq<char>>|
                r@ == #[trigger] display_text(
                    text_model(self.tool_version),
                    os_type,
                    os_release,
                    payload@,
                    location_model(location),
                ),
    {
        let tool_version = match &self.tool_version {
            Some(v) => Some(v.clone()),
            None => None,
        };
        let (os_type, os_release) = match location {
            Some(_) => (host_os_type(), host_os_release()),
            None => (None, None),
        };
        let metadata = Metadata { tool_version, os_type, os_release };
        let r = CrashReport::new(payload, location, &metadata).render();
        assert(r@ == display_text(
            text_model(self.tool_version),
            metadata@.os_type,
            metadata@.os_release,
            payload@,
            location_model(location),
        ));
        r
    }
}

/// What is painted shows under the paint.
pub proof fn lemma_painted_shows_text(on: Seq<char>, text: Seq<char>)
    ensures
        occurs_in(text, painted(on, text)),
{
    lemma_occurs_between(on, text, "\x1b[0m"@);
}

/// The body of an issue holds the message and the location.
pub proof fn lemma_body_holds_message_and_location(
    metadata: MetadataModel,
    message: Seq<char>,
    location: LocationModel,
)
    ensures
        occurs_in(message, body_text(metadata, message, location)),
        occurs_in(location_text(location), body_text(metadata, message, location)),
{
    let body = body_text(metadata, message, location);
    let head = "## Metadata\n|key|value|\n|--|--|\n|**version**|"@ + or_unavailable(
        metadata.tool_version,
    ) + "|\n|**os_type**|"@ + or_unavailable(metadata.os_type) + "|\n|**os_release**|"@
        + or_unavailable(metadata.os_release) + "|\n|**message**|"@;
    let middle = "|\n|**location**|"@;
    let foot = "|\n## More info\n"@;
    lemma_occurs_between(head, message, middle + location_text(location) + foot);
    assert(body =~= head + message + (middle + location_text(location) + foot));
    lemma_occurs_between(head + message + middle, location_text(location), foot);
}

/// A rendered report shows the message of the fault and, where the location
/// is known, the file, the line and the link.
pub proof fn lemma_report_shows_its_parts(report: CrashReportModel)
    ensures
        occurs_in(report.message, rendered(report)),
        report.site matches Some(site) ==> {
            &&& occurs_in(site.location.file, rendered(report))
            &&& occurs_in(decimal(site.location.line), rendered(report))
            &&& occurs_in(site.report_url, rendered(report))
        },
{
    let shown = rendered(report);
    let head = painted(red_on(), "The application panicked (crashed)."@) + "\n"@ + "Message:  "@;
    let message = painted(cyan_on(), report.message);
    let middle = "\n"@ + "Location: "@;
    let place = rendered_site(report.site);
    lemma_painted_shows_text(cyan_on(), report.message);
    lemma_occurs_within(report.message, head, message, middle + place);
    assert(shown =~= head + message + (middle + place));
    match report.site {
        Some(site) => {
            let none = Seq::<char>::empty();
            let file = painted(purple_on(), site.location.file);
            let line = painted(purple_on(), decimal(site.location.line));
            let invitation = "\n\nConsider reporting the bug using this URL: "@;
            let link = painted(cyan_on(), site.report_url);
            let lead = head + message + middle;
            lemma_painted_shows_text(purple_on(), site.location.file);
            lemma_painted_shows_text(purple_on(), decimal(site.location.line));
            lemma_painted_shows_text(cyan_on(), site.report_url);
            lemma_occurs_within(site.location.file, lead, file, ":"@ + line + invitation + link);
            assert(shown =~= lead + file + (":"@ + line + invitation + link));
            lemma_occurs_within(
                decimal(site.location.line),
                lead + file + ":"@,
                line,
                invitation + link,
            );
            assert(shown =~= lead + file + ":"@ + line + (invitation + link));
            let upto = lead + file + ":"@ + line + invitation;
            lemma_occurs_within(site.report_url, upto, link, none);
            assert(shown =~= lead + file + ":"@ + line + invitation + link + none);
        },
        None => {},
    }
}

} // verus!
