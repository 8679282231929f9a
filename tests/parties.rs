use republic_of_discord::response::FieldValue;
use republic_of_discord::{parse_id, Member, Party, Politics, Resolution, StoreFailure};

fn party(guild: &str, role: &str) -> Party {
    Party::new(
        "A party".to_string(),
        guild.to_string(),
        role.to_string(),
        "123".to_string(),
    )
}

fn member(user_id: u64, roles: &[u64]) -> Member {
    Member { user_id, roles: roles.to_vec() }
}

#[test]
fn parse_id_accepts_decimal_identifiers() {
    assert_eq!(parse_id("0"), Some(0));
    assert_eq!(parse_id("836284947386761238"), Some(836284947386761238));
    assert_eq!(parse_id("+42"), Some(42));
    assert_eq!(parse_id("18446744073709551615"), Some(u64::MAX));
}

#[test]
fn parse_id_rejects_malformed_identifiers() {
    assert_eq!(parse_id(""), None);
    assert_eq!(parse_id("+"), None);
    assert_eq!(parse_id("-1"), None);
    assert_eq!(parse_id("12a"), None);
    assert_eq!(parse_id(" 12"), None);
    assert_eq!(parse_id("18446744073709551616"), None);
    assert_eq!(parse_id("99999999999999999999"), None);
}

#[test]
fn party_ids_are_parsed() {
    let p = party("1001", "2002");
    assert!(p.has_valid_ids());
    assert_eq!(p.guild_id(), 1001);
    assert_eq!(p.role_id(), 2002);
    assert_eq!(p.emoji_id, "123");
    assert!(!party("x", "2002").has_valid_ids());
    assert!(!party("1001", "").has_valid_ids());
}

#[test]
fn members_keeps_those_with_the_role() {
    let p = party("1", "7");
    let all = vec![
        member(10, &[7]),
        member(11, &[3, 4]),
        member(12, &[1, 7, 9]),
        member(13, &[]),
    ];
    let found = p.members(Some(all)).unwrap();
    assert_eq!(found, vec![member(10, &[7]), member(12, &[1, 7, 9])]);
}

#[test]
fn members_absent_when_guild_unknown() {
    let p = party("1", "7");
    assert_eq!(p.members(None), None);
}

#[test]
fn members_of_empty_guild() {
    let p = party("1", "7");
    assert_eq!(p.members(Some(vec![])), Some(vec![]));
}

fn resolved(name: &str, members: Option<Vec<Member>>) -> Resolution {
    Resolution::Resolved { role_name: name.to_string(), members }
}

#[test]
fn missing_role_drops_only_that_row() {
    let rows = vec![
        resolved("A", Some(vec![member(1, &[5]), member(2, &[5]), member(3, &[5])])),
        Resolution::RoleMissing,
        resolved("C", Some(vec![])),
    ];
    let data = Politics::new().parties(Ok(rows)).unwrap();
    let fields = data.embed.fields;
    assert_eq!(fields.len(), 2);
    assert_eq!(fields[0].name, "A");
    assert_eq!(fields[0].value, FieldValue::Number(3));
    assert!(fields[0].inline);
    assert_eq!(fields[1].name, "C");
    assert_eq!(fields[1].value, FieldValue::Number(0));
    assert!(fields[1].inline);
    assert_eq!(data.embed.title, None);
    assert_eq!(data.embed.description, None);
}

#[test]
fn unknown_members_count_as_zero() {
    let data = Politics::new().parties(Ok(vec![resolved("B", None)])).unwrap();
    assert_eq!(data.embed.fields.len(), 1);
    assert_eq!(data.embed.fields[0].value, FieldValue::Number(0));
}

#[test]
fn no_parties_no_rows() {
    let data = Politics::new().parties(Ok(vec![])).unwrap();
    assert!(data.embed.fields.is_empty());
}

#[test]
fn store_failure_fails_the_report() {
    let e = StoreFailure { message: "server selection timeout".to_string() };
    assert_eq!(Politics::new().parties(Err(e.clone())), Err(e));
}

#[test]
fn each_identifier_is_parsed_on_its_own() {
    let p = party("1001", "not-a-number");
    assert_eq!(p.guild_id(), 1001);
    assert_eq!(p.members(None), None);
    let q = party("", "2002");
    assert_eq!(q.role_id(), 2002);
}
