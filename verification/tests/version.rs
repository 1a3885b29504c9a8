use toast::version::{Identifier, Version};

fn alpha(s: &str) -> Identifier {
    Identifier::AlphaNumeric(s.to_string())
}

fn pre_release(major: u64, minor: u64, patch: u64, pre: Vec<Identifier>) -> Version {
    Version { major, minor, patch, pre, build: vec![] }
}

fn outside(v: &Version) -> semver::Version {
    let part = |id: &Identifier| match id {
        Identifier::Numeric(n) => semver::Identifier::Numeric(*n),
        Identifier::AlphaNumeric(s) => semver::Identifier::AlphaNumeric(s.clone()),
    };
    semver::Version {
        major: v.major,
        minor: v.minor,
        patch: v.patch,
        pre: v.pre.iter().map(part).collect(),
        build: v.build.iter().map(part).collect(),
    }
}

fn samples() -> Vec<Version> {
    vec![
        Version::new(0, 0, 0),
        Version::new(0, 0, 1),
        Version::new(0, 1, 0),
        Version::new(1, 0, 0),
        pre_release(1, 0, 0, vec![alpha("alpha")]),
        pre_release(1, 0, 0, vec![alpha("alpha"), Identifier::Numeric(1)]),
        pre_release(1, 0, 0, vec![alpha("alpha"), alpha("beta")]),
        pre_release(1, 0, 0, vec![alpha("beta")]),
        pre_release(1, 0, 0, vec![alpha("beta"), Identifier::Numeric(2)]),
        pre_release(1, 0, 0, vec![alpha("beta"), Identifier::Numeric(11)]),
        pre_release(1, 0, 0, vec![alpha("rc"), Identifier::Numeric(1)]),
        pre_release(1, 0, 0, vec![Identifier::Numeric(0)]),
        pre_release(1, 0, 0, vec![Identifier::Numeric(7), alpha("a")]),
        pre_release(1, 0, 0, vec![alpha("Beta")]),
        pre_release(1, 0, 0, vec![alpha("b")]),
        pre_release(1, 0, 0, vec![alpha("be")]),
        pre_release(1, 0, 0, vec![alpha("\u{e9}t\u{e9}")]),
        pre_release(1, 0, 0, vec![alpha("\u{1F600}")]),
        pre_release(1, 0, 0, vec![alpha("z")]),
        Version::new(13, 9, 9),
        pre_release(14, 0, 0, vec![alpha("rc"), Identifier::Numeric(1)]),
        Version::new(14, 0, 0),
        Version { major: 14, minor: 0, patch: 0, pre: vec![], build: vec![alpha("b1")] },
        Version::new(14, 0, 1),
        Version::new(u64::MAX, u64::MAX, u64::MAX),
    ]
}

#[test]
fn precedence_follows_the_documented_chain() {
    let chain = vec![
        pre_release(1, 0, 0, vec![alpha("alpha")]),
        pre_release(1, 0, 0, vec![alpha("alpha"), Identifier::Numeric(1)]),
        pre_release(1, 0, 0, vec![alpha("alpha"), alpha("beta")]),
        pre_release(1, 0, 0, vec![alpha("beta")]),
        pre_release(1, 0, 0, vec![alpha("beta"), Identifier::Numeric(2)]),
        pre_release(1, 0, 0, vec![alpha("beta"), Identifier::Numeric(11)]),
        pre_release(1, 0, 0, vec![alpha("rc"), Identifier::Numeric(1)]),
        Version::new(1, 0, 0),
    ];
    for i in 0..chain.len() {
        for j in 0..chain.len() {
            assert_eq!(chain[i].precedes(&chain[j]), i < j, "{} {}", i, j);
        }
    }
}

#[test]
fn numbers_decide_before_the_pre_release() {
    assert!(Version::new(1, 9, 9).precedes(&Version::new(2, 0, 0)));
    assert!(Version::new(2, 0, 9).precedes(&Version::new(2, 1, 0)));
    assert!(Version::new(2, 1, 0).precedes(&Version::new(2, 1, 1)));
    assert!(!Version::new(2, 1, 1).precedes(&Version::new(2, 1, 1)));
    assert!(Version::new(2, 1, 1).precedes(&pre_release(2, 1, 2, vec![alpha("a")])));
    assert!(!pre_release(2, 1, 2, vec![alpha("a")]).precedes(&Version::new(2, 1, 1)));
}

#[test]
fn pre_release_comes_before_its_release() {
    let rc = pre_release(14, 0, 0, vec![alpha("rc"), Identifier::Numeric(1)]);
    assert!(rc.precedes(&Version::new(14, 0, 0)));
    assert!(!Version::new(14, 0, 0).precedes(&rc));
}

#[test]
fn build_metadata_does_not_order() {
    let plain = Version::new(3, 1, 4);
    let built = Version { major: 3, minor: 1, patch: 4, pre: vec![], build: vec![alpha("x")] };
    assert!(!plain.precedes(&built));
    assert!(!built.precedes(&plain));
}

fn precedes(a: Identifier, b: Identifier) -> bool {
    pre_release(1, 0, 0, vec![a]).precedes(&pre_release(1, 0, 0, vec![b]))
}

#[test]
fn identifiers_order_numbers_before_text() {
    assert!(precedes(Identifier::Numeric(999), alpha("0a")));
    assert!(!precedes(alpha("0a"), Identifier::Numeric(999)));
    assert!(precedes(Identifier::Numeric(2), Identifier::Numeric(11)));
    assert!(!precedes(Identifier::Numeric(11), Identifier::Numeric(2)));
    assert!(precedes(alpha("11"), alpha("2")));
    assert!(precedes(alpha("beta"), alpha("betas")));
    assert!(!precedes(alpha("beta"), alpha("beta")));
    assert!(precedes(alpha("Z"), alpha("a")));
    assert!(precedes(alpha(""), alpha("a")));
    assert!(precedes(alpha("z"), alpha("\u{e9}")));
    assert!(precedes(alpha("\u{e9}"), alpha("\u{1F600}")));
}

#[test]
fn precedence_is_a_strict_total_order_on_the_samples() {
    let all = samples();
    for a in &all {
        assert!(!a.precedes(a));
        for b in &all {
            assert!(!(a.precedes(b) && b.precedes(a)));
            let same = a.major == b.major && a.minor == b.minor && a.patch == b.patch
                && a.pre == b.pre;
            assert!(a.precedes(b) || b.precedes(a) || same);
            for c in &all {
                if a.precedes(b) && b.precedes(c) {
                    assert!(a.precedes(c));
                }
            }
        }
    }
}

#[test]
fn text_of_a_version() {
    assert_eq!(Version::new(14, 0, 0).to_text(), "14.0.0");
    assert_eq!(Version::new(0, 10, 203).to_text(), "0.10.203");
    assert_eq!(
        pre_release(1, 2, 3, vec![alpha("rc"), Identifier::Numeric(1)]).to_text(),
        "1.2.3-rc.1"
    );
    let full = Version {
        major: 1,
        minor: 0,
        patch: 0,
        pre: vec![alpha("alpha"), Identifier::Numeric(0), alpha("x-y")],
        build: vec![Identifier::Numeric(20200101), alpha("sha")],
    };
    assert_eq!(full.to_text(), "1.0.0-alpha.0.x-y+20200101.sha");
    let built = Version { major: 2, minor: 0, patch: 1, pre: vec![], build: vec![alpha("b")] };
    assert_eq!(built.to_text(), "2.0.1+b");
    assert_eq!(
        Version::new(u64::MAX, 0, 0).to_text(),
        "18446744073709551615.0.0"
    );
}

#[test]
fn text_agrees_with_the_semver_crate() {
    for v in samples() {
        assert_eq!(v.to_text(), outside(&v).to_string());
    }
}

#[test]
fn text_of_an_identifier() {
    assert_eq!(Identifier::Numeric(0).to_text(), "0");
    assert_eq!(Identifier::Numeric(42).to_text(), "42");
    assert_eq!(alpha("x-1").to_text(), "x-1");
}
