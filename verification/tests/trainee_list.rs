use uma::ids::UmaId;
use uma::scraping::trainee_list::{parse_trainee_index, TraineeIndexEntry};

fn make_row(icon_id: &str, name: &str, en_date: Option<&str>) -> String {
    let en_cell = match en_date {
        Some(date) => format!(r#"<td data-sort-value="1">{date}</td>"#),
        None => "<td></td>".to_string(),
    };
    format!(
        r#"<tr>
            <td><img src="/w/thumb.php?f=Game_Playable_Icon_{icon_id}.png&width=72"></td>
            <td><b>Some Title</b></td>
            <td><a href="/wiki/Character">{name}</a></td>
            <td data-sort-value="1">2021-03-02</td>
            {en_cell}
        </tr>"#
    )
}

fn wrap_table(rows: &str) -> String {
    format!(r#"<table class="wikitable"><tbody>{rows}</tbody></table>"#)
}

#[test]
fn parses_valid_en_row() {
    let html = wrap_table(&make_row("100101", "Special Week", Some("2025-06-26")));
    let entries = parse_trainee_index(&html);
    assert_eq!(entries.len(), 1);
    assert_eq!(entries[0].id, UmaId(100101));
    assert_eq!(entries[0].name, "Special Week");
    assert_eq!(entries[0].gametora_url(), "https://gametora.com/umamusume/characters/100101-special-week");
}

#[test]
fn filters_jp_only_row() {
    let html = wrap_table(&make_row("100101", "Special Week", None));
    let entries = parse_trainee_index(&html);
    assert!(entries.is_empty());
}

#[test]
fn filters_jp_only_keeps_en() {
    let rows = format!(
        "{}{}",
        make_row("100101", "Special Week", Some("2025-06-26")),
        make_row("100201", "Silence Suzuka", None),
    );
    let html = wrap_table(&rows);
    let entries = parse_trainee_index(&html);
    assert_eq!(entries.len(), 1);
    assert_eq!(entries[0].id, UmaId(100101));
}

#[test]
fn skips_row_with_missing_image() {
    let html = wrap_table(
        r#"<tr>
            <td></td>
            <td><b>Some Title</b></td>
            <td><a href="/wiki/Character">Special Week</a></td>
            <td data-sort-value="1">2021-03-02</td>
            <td data-sort-value="1">2025-06-26</td>
        </tr>"#,
    );
    let entries = parse_trainee_index(&html);
    assert!(entries.is_empty());
}

#[test]
fn skips_row_with_missing_name() {
    let html = wrap_table(
        r#"<tr>
            <td><img src="/w/thumb.php?f=Game_Playable_Icon_100101.png&width=72"></td>
            <td><b>Some Title</b></td>
            <td></td>
            <td data-sort-value="1">2021-03-02</td>
            <td data-sort-value="1">2025-06-26</td>
        </tr>"#,
    );
    let entries = parse_trainee_index(&html);
    assert!(entries.is_empty());
}

#[test]
fn gametora_url_lowercases_and_hyphenates() {
    let entry = TraineeIndexEntry { id: UmaId(102001), name: "Seiun Sky Ω".to_string() };
    assert_eq!(entry.gametora_url(), "https://gametora.com/umamusume/characters/102001-seiun-sky-ω");
}

#[test]
fn skips_rows_with_too_few_cells() {
    let html = wrap_table(r#"<tr><td>1</td><td>2</td></tr>"#);
    assert!(parse_trainee_index(&html).is_empty());
}
