use krakker::mailer::{EmailList, Mailer, MailerError};
use krakker::text::decimal_string;

fn pairs(q: &[(String, String)]) -> Vec<(&str, &str)> {
    q.iter().map(|(a, b)| (a.as_str(), b.as_str())).collect()
}

#[test]
fn sending_needs_main_list() {
    let m = Mailer::new("k", "n", "e@x", "ru");
    assert_eq!(m.main_list_id(), None);
    assert_eq!(m.send_email_query("to@x", "s", "b").unwrap_err(), MailerError::NoMainList);
}

#[test]
fn main_list_is_found_by_name() {
    let mut m = Mailer::new("k", "n", "e@x", "ru");
    let lists = vec![
        EmailList { id: 1, title: "other".to_string() },
        EmailList { id: 2, title: "main".to_string() },
        EmailList { id: 3, title: "main".to_string() },
    ];
    assert!(m.adopt_main_list(&lists));
    assert_eq!(m.main_list_id(), Some(2));
}

#[test]
fn main_list_missing_is_created() {
    let mut m = Mailer::new("k", "n", "e@x", "ru");
    assert!(!m.adopt_main_list(&vec![EmailList { id: 1, title: "Main".to_string() }]));
    assert_eq!(m.main_list_id(), None);
    m.main_list_created(77);
    assert_eq!(m.main_list_id(), Some(77));
}

#[test]
fn send_query_lists_all_parameters() {
    let mut m = Mailer::new("key", "Krakker", "noreply@krakker.org", "ru");
    m.main_list_created(12345);
    let q = m.send_email_query("to@x.org", "Hello", "<b>Hi</b>").unwrap();
    assert_eq!(
        pairs(&q),
        vec![
            ("api_key", "key"),
            ("format", "json"),
            ("sender_name", "Krakker"),
            ("sender_email", "noreply@krakker.org"),
            ("list_id", "12345"),
            ("subject", "Hello"),
            ("body", "<b>Hi</b>"),
            ("email", "to@x.org"),
            ("lang", "ru"),
        ]
    );
}

#[test]
fn list_queries() {
    let m = Mailer::new("key", "n", "e", "ru");
    assert_eq!(pairs(&m.lists_query()), vec![("format", "json"), ("api_key", "key")]);
    assert_eq!(
        pairs(&m.create_list_query("main")),
        vec![("format", "json"), ("api_key", "key"), ("title", "main")]
    );
}

#[test]
fn decimal_writing() {
    assert_eq!(decimal_string(0), "0");
    assert_eq!(decimal_string(7), "7");
    assert_eq!(decimal_string(10), "10");
    assert_eq!(decimal_string(u64::MAX), "18446744073709551615");
}
