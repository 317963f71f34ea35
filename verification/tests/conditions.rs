use uma::ids::SkillId;
use uma::models::skill::Operator;
use uma::scraping::conditions::{parse_condition_part, parse_condition_string};
use uma::scraping::error::ScraperError;

#[test]
fn condition_parts_prefer_two_character_operators() {
    assert_eq!(parse_condition_part("phase>=2"), Some(("phase".to_string(), Operator::GtEq, "2".to_string())));
    assert_eq!(parse_condition_part("a==b"), Some(("a".to_string(), Operator::Eq, "b".to_string())));
    assert_eq!(parse_condition_part("x<3"), Some(("x".to_string(), Operator::Lt, "3".to_string())));
    assert_eq!(parse_condition_part("nothing"), None);
}

#[test]
fn condition_string_marks_alternative_groups() {
    let c = parse_condition_string("a>=1&b<2@c==3", SkillId(1)).unwrap();
    assert_eq!(c.len(), 3);
    assert!(!c[0].is_or && !c[1].is_or && c[2].is_or);
    assert!(parse_condition_string("", SkillId(1)).unwrap().is_empty());
}

#[test]
fn malformed_condition_names_the_part_and_skill() {
    match parse_condition_string("a>=1&oops", SkillId(77)) {
        Err(ScraperError::InvalidCondition(msg)) => assert_eq!(msg, "'oops' in skill 77"),
        _ => panic!("expected an invalid condition"),
    }
}
