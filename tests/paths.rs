use termirust::path::DirPath;

fn segs(p: &DirPath) -> Vec<String> {
    p.segments.clone()
}

#[test]
fn parse_splits_on_slashes() {
    let p = DirPath::parse("/home/user");
    assert_eq!(segs(&p), vec!["home".to_string(), "user".to_string()]);
    assert_eq!(p.render(), "/home/user");
}

#[test]
fn parse_drops_empty_segments() {
    let p = DirPath::parse("//home//user/");
    assert_eq!(segs(&p), vec!["home".to_string(), "user".to_string()]);
    assert_eq!(p.render(), "/home/user");
}

#[test]
fn parse_of_root_and_empty() {
    assert!(DirPath::parse("/").is_root());
    assert!(DirPath::parse("").is_root());
    assert_eq!(DirPath::parse("/").render(), "/");
    assert_eq!(DirPath::root().render(), "/");
}

#[test]
fn parse_keeps_non_ascii_names() {
    let p = DirPath::parse("/données/été");
    assert_eq!(segs(&p), vec!["données".to_string(), "été".to_string()]);
    assert_eq!(p.render(), "/données/été");
}

#[test]
fn child_appends_one_segment() {
    let home = DirPath::parse("/home/user");
    let docs = home.child(&"docs".to_string());
    assert_eq!(docs.render(), "/home/user/docs");
    let top = DirPath::root().child(&"tmp".to_string());
    assert_eq!(top.render(), "/tmp");
}

#[test]
fn parent_removes_last_segment() {
    let p = DirPath::parse("/home/user/docs");
    assert_eq!(p.parent().render(), "/home/user");
    assert_eq!(DirPath::parse("/home").parent().render(), "/");
    assert!(DirPath::root().parent().is_root());
}

#[test]
fn same_as_compares_segments() {
    let a = DirPath::parse("/home/user");
    let b = DirPath::parse("/home//user/");
    let c = DirPath::parse("/home/use");
    let d = DirPath::parse("/home");
    assert!(a.same_as(&b));
    assert!(!a.same_as(&c));
    assert!(!a.same_as(&d));
    assert!(a.copy().same_as(&a));
}
