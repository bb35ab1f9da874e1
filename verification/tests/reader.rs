//! The line reader and tokenizer, and parameter coercion.

use shadow_company_tools::coerce::FromParam;
use shadow_company_tools::config::{ConfigLine, ConfigReader};

#[test]
fn config_reader() {
    let data = r#"
            NAME training
            SIZE 10
        "#;

    let mut r = ConfigReader::new(data.as_bytes().to_vec()).expect("failed to read first line");
    assert!(r.current().is_some());
    assert_eq!(r.current().unwrap().name, "NAME");

    r.next_line().expect("failed to read line");
    assert!(r.current().is_some());
    assert_eq!(r.current().unwrap().name, "SIZE");

    r.next_line().expect("failed to read next file");
    assert!(r.current().is_none());
}

#[test]
fn tokenize_quoted_params() {
    let data = b"OBJECT unit_a model_x \"Long Title Here\"".to_vec();
    let r = ConfigReader::new(data).unwrap();
    let line = r.current().unwrap();
    assert_eq!(line.name, "OBJECT");
    assert_eq!(line.params.len(), 3);
    assert_eq!(line.params[0], "unit_a");
    assert_eq!(line.params[1], "model_x");
    assert_eq!(line.params[2], "Long Title Here");
}

#[test]
fn comments_and_blanks_yield_no_line() {
    let data = b"\n\n; a comment\r\n   ;; another comment\n\t\n   \n".to_vec();
    let r = ConfigReader::new(data).unwrap();
    assert!(r.current().is_none());
}

#[test]
fn line_breaks_in_any_mix() {
    let data = b"A 1\r\nB 2\n\rC 3\rD 4\nE 5".to_vec();
    let mut r = ConfigReader::new(data).unwrap();
    let mut names = Vec::new();
    while let Some(line) = r.current() {
        names.push(line.name.clone());
        r.next_line().unwrap();
    }
    assert_eq!(names, vec!["A", "B", "C", "D", "E"]);
}

#[test]
fn quote_closes_token_immediately() {
    // The closing quote ends the token even with no separator after it, and
    // an empty quoted token is kept.
    let data = b"KEY \"a b\"c \"\" tail".to_vec();
    let r = ConfigReader::new(data).unwrap();
    let line = r.current().unwrap();
    assert_eq!(line.name, "KEY");
    assert_eq!(line.params, vec!["a b", "c", "", "tail"]);
}

#[test]
fn param_coercion() {
    let line = ConfigLine {
        name: "K".to_string(),
        params: vec![
            "7".to_string(),
            "abc".to_string(),
            "-5".to_string(),
            "+5".to_string(),
            "1".to_string(),
            "2".to_string(),
        ],
    };
    assert_eq!(line.param::<u32>(0), Some(7));
    assert_eq!(line.param::<u32>(1), None);
    assert_eq!(line.param::<i32>(2), Some(-5));
    assert_eq!(line.param::<i32>(3), Some(5));
    assert_eq!(line.param::<bool>(4), Some(true));
    assert_eq!(line.param::<bool>(5), Some(false));
    assert_eq!(line.param::<bool>(1), None);
    assert_eq!(line.param::<String>(1), Some("abc".to_string()));
    assert_eq!(line.param::<u32>(6), None);
    assert_eq!(line.param::<String>(6), None);
}

#[test]
fn param_coercion_ranges() {
    assert_eq!(<u32 as FromParam>::from("4294967295".to_string()), Some(u32::MAX));
    assert_eq!(<u32 as FromParam>::from("4294967296".to_string()), None);
    assert_eq!(<u32 as FromParam>::from("-1".to_string()), None);
    assert_eq!(<i32 as FromParam>::from("2147483647".to_string()), Some(i32::MAX));
    assert_eq!(<i32 as FromParam>::from("2147483648".to_string()), None);
    assert_eq!(<i32 as FromParam>::from("-2147483648".to_string()), Some(i32::MIN));
    assert_eq!(<i32 as FromParam>::from("-2147483649".to_string()), None);
    assert_eq!(<u32 as FromParam>::from("".to_string()), None);
    assert_eq!(<u32 as FromParam>::from("+".to_string()), None);
    assert_eq!(<u32 as FromParam>::from("007".to_string()), Some(7));
}
