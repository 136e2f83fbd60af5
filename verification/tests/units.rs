use maa_auth::digits::u32_to_string;
use maa_auth::sessions::register_session;
use maa_auth::service::authorities_of;

#[test]
fn decimal_rendering_is_exact() {
    assert_eq!(u32_to_string(0), String::from("0"));
    assert_eq!(u32_to_string(7), String::from("7"));
    assert_eq!(u32_to_string(10), String::from("10"));
    assert_eq!(u32_to_string(210), String::from("210"));
    assert_eq!(u32_to_string(4294967295), String::from("4294967295"));
}

#[test]
fn authorities_are_the_decimals_below_status() {
    assert_eq!(authorities_of(0), Vec::<String>::new());
    assert_eq!(authorities_of(1), vec![String::from("0")]);
    assert_eq!(
        authorities_of(12),
        vec![
            String::from("0"),
            String::from("1"),
            String::from("2"),
            String::from("3"),
            String::from("4"),
            String::from("5"),
            String::from("6"),
            String::from("7"),
            String::from("8"),
            String::from("9"),
            String::from("10"),
            String::from("11"),
        ]
    );
}

#[test]
fn session_list_evicts_oldest_first() {
    let mut ids = vec![String::from("a"), String::from("b")];
    register_session(&mut ids, String::from("c"), 2);
    assert_eq!(ids, vec![String::from("b"), String::from("c")]);

    let mut short = vec![String::from("a")];
    register_session(&mut short, String::from("b"), 2);
    assert_eq!(short, vec![String::from("a"), String::from("b")]);

    let mut none = vec![String::from("a")];
    register_session(&mut none, String::from("b"), 0);
    assert_eq!(none, Vec::<String>::new());
}
