use uma::ids::SkillId;
use uma::models::skill::SkillOperator;
use uma::scraping::skill_detail::{parse_condition_text, parse_single_condition, parse_skill_detail_page};

fn make_id() -> SkillId {
    SkillId(200702)
}

fn wrap(inner: &str) -> String {
    format!(r#"<html><body><div class="skill-info-container"><div>{}</div></div></body></html>"#, inner)
}

fn simple_effect(stats: &str, conditions: &str) -> String {
    format!(
        r#"<div class="skill-effect-wrapper fit-content">
            <table class="wikitable"><tbody>{}</tbody></table>
            <table class="wikitable"><tbody>{}</tbody></table>
        </div>"#,
        stats, conditions
    )
}

#[test]
fn test_parses_single_effect_and_conditions() {
    let html = wrap(&simple_effect(
        r#"<tr><th>Duration</th><td>3.0s</td></tr>
           <tr><th>Acceleration</th><td>0.2</td></tr>"#,
        r#"<tr><th>Conditions</th><td>distance_type == 2 <b>AND</b> phase_random == 2 <b>AND</b> order_rate &gt; 50</td></tr>"#,
    ));
    let result = parse_skill_detail_page(&html, make_id()).unwrap();
    assert_eq!(result.effects.len(), 1);
    let effect = &result.effects[0];
    assert_eq!(effect.stats.len(), 2);
    assert_eq!(effect.stats[0].stat_key, "Duration");
    assert_eq!(effect.stats[0].stat_val, "3.0s");
    assert_eq!(effect.stats[1].stat_key, "Acceleration");
    assert_eq!(effect.stats[1].stat_val, "0.2");
    assert_eq!(effect.conditions.len(), 3);
    assert!(!effect.conditions[0].is_precondition);
    assert_eq!(effect.conditions[0].cond_key, "distance_type");
    assert_eq!(effect.conditions[2].cond_key, "order_rate");
}

#[test]
fn test_parses_preconditions_and_conditions() {
    let html = wrap(&simple_effect(
        r#"<tr><th>Duration</th><td>5.0s</td></tr>
           <tr><th>Target Speed</th><td>0.45</td></tr>"#,
        r#"<tr><th>Preconditions</th><td>phase == 1 <b>AND</b> blocked_side_continuetime &gt;= 2</td></tr>
           <tr><th>Conditions</th><td>is_finalcorner == 1 <b>AND</b> order &gt;= 2</td></tr>"#,
    ));
    let result = parse_skill_detail_page(&html, make_id()).unwrap();
    assert_eq!(result.effects.len(), 1);
    let effect = &result.effects[0];
    let preconditions: Vec<_> = effect.conditions.iter().filter(|c| c.is_precondition).collect();
    let conditions: Vec<_> = effect.conditions.iter().filter(|c| !c.is_precondition).collect();
    assert_eq!(preconditions.len(), 2);
    assert_eq!(conditions.len(), 2);
    assert_eq!(preconditions[0].cond_key, "phase");
    assert_eq!(conditions[0].cond_key, "is_finalcorner");
}

#[test]
fn test_parses_multiple_effects() {
    let effect1 = simple_effect(
        r#"<tr><th>Duration</th><td>5.0s</td></tr>
           <tr><th>Target Speed</th><td>0.45</td></tr>"#,
        r#"<tr><th>Conditions</th><td>is_finalcorner == 1 <b>AND</b> order &gt;= 2</td></tr>"#,
    );
    let effect2 = simple_effect(
        r#"<tr><th>Duration</th><td>5.0s</td></tr>
           <tr><th>Target Speed</th><td>0.35</td></tr>"#,
        r#"<tr><th>Conditions</th><td>is_finalcorner == 1 <b>AND</b> order &gt;= 2</td></tr>"#,
    );
    let html = wrap(&format!("{}{}", effect1, effect2));
    let result = parse_skill_detail_page(&html, make_id()).unwrap();
    assert_eq!(result.effects.len(), 2);
    assert_eq!(result.effects[0].stats[1].stat_val, "0.45");
    assert_eq!(result.effects[1].stats[1].stat_val, "0.35");
}

#[test]
fn test_parses_or_conditions() {
    let html = wrap(
        r#"<div class="skill-effect-wrapper fit-content">
            <table class="wikitable"><tbody>
                <tr><th>Duration</th><td>5.0s</td></tr>
                <tr><th>Target Speed</th><td>0.35</td></tr>
                <tr><th>Acceleration</th><td>0.1</td></tr>
            </tbody></table>
            <table class="wikitable"><tbody>
                <tr>
                    <th rowspan="2">Conditions</th>
                    <td rowspan="2"><b>OR</b></td>
                    <td>distance_rate &gt;= 50 <b>AND</b> corner == 0 <b>AND</b> order_rate &gt;= 70</td>
                </tr>
                <tr>
                    <td>distance_rate &gt;= 50 <b>AND</b> corner == 0 <b>AND</b> order_rate &lt;= 30</td>
                </tr>
            </tbody></table>
        </div>"#,
    );
    let result = parse_skill_detail_page(&html, make_id()).unwrap();
    assert_eq!(result.effects.len(), 1);
    let effect = &result.effects[0];
    assert_eq!(effect.stats.len(), 3);
    assert_eq!(effect.conditions.len(), 6);
}

#[test]
fn test_returns_none_for_no_effects() {
    let html = "<html><body><div>nothing here</div></body></html>";
    let result = parse_skill_detail_page(html, make_id());
    assert!(result.is_none());
}

#[test]
fn test_skips_effect_missing_second_table() {
    let html = wrap(
        r#"<div class="skill-effect-wrapper fit-content">
            <table class="wikitable"><tbody>
                <tr><th>Duration</th><td>3.0s</td></tr>
            </tbody></table>
        </div>"#,
    );
    let result = parse_skill_detail_page(&html, make_id());
    assert!(result.is_none());
}

#[test]
fn single_condition_tries_not_equal_first() {
    let c = parse_single_condition("a != 1", true).unwrap();
    assert_eq!(c.cond_key, "a");
    assert_eq!(c.operator, SkillOperator::NotEq);
    assert_eq!(c.cond_val, "1");
    assert!(c.is_precondition);
    assert!(c.description.is_none());
    let c = parse_single_condition("order_rate <= 30", false).unwrap();
    assert_eq!(c.operator, SkillOperator::LtEq);
    assert_eq!(c.cond_val, "30");
    assert!(parse_single_condition("no operator here", false).is_none());
    assert!(parse_single_condition("== 3", false).is_none());
}

#[test]
fn condition_text_drops_empty_and_unreadable_terms() {
    let conditions = parse_condition_text("a == 1 AND AND nonsense AND b > 2", false);
    assert_eq!(conditions.len(), 2);
    assert_eq!(conditions[0].cond_key, "a");
    assert_eq!(conditions[1].cond_key, "b");
    assert_eq!(conditions[1].operator, SkillOperator::Gt);
}

#[test]
fn page_keeps_the_skill_id() {
    let html = wrap(&simple_effect(
        r#"<tr><th>Duration</th><td>3.0s</td></tr>"#,
        r#"<tr><th>Conditions</th><td>phase == 1</td></tr>"#,
    ));
    let result = parse_skill_detail_page(&html, make_id()).unwrap();
    assert_eq!(result.id, make_id());
    assert_eq!(result.effects[0].conditions[0].operator, SkillOperator::Eq);
}
