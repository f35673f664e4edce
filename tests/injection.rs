use machinery_build::inject::{inject, Context, Injectable, User};

fn context(headers: &[(&str, &str)]) -> Context {
    Context { headers: headers.iter().map(|(n, v)| (n.to_string(), v.to_string())).collect() }
}

#[test]
fn user_from_header() {
    let ctx = context(&[("accept", "*/*"), ("user_id", "42"), ("user_id", "7")]);
    let user: User = inject(&ctx).ok().unwrap();
    assert_eq!(user.id, "42");
    let boxed = User::inject(&ctx).ok().unwrap();
    assert_eq!(boxed.id, "42");
}

#[test]
fn user_without_header() {
    let ctx = context(&[("accept", "*/*")]);
    match inject::<User>(&ctx) {
        Err(e) => assert_eq!(e, "user_id is not found"),
        Ok(_) => panic!("expected no user"),
    }
}

#[test]
fn header_lookup() {
    let ctx = context(&[("a", "1"), ("b", "2")]);
    assert_eq!(ctx.header("b"), Some("2".to_string()));
    assert_eq!(ctx.header("c"), None);
}
