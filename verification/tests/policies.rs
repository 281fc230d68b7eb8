use bindizr::policies::{print_token_policies, print_tsig_policies, ZonePolicy};

fn policy(id: i32, holder: &str) -> ZonePolicy {
    ZonePolicy {
        id,
        holder: holder.to_string(),
        record_name_pattern: "_acme-challenge".to_string(),
        record_types: "TXT".to_string(),
    }
}

#[test]
fn no_policies_is_one_line() {
    assert_eq!(print_token_policies(&vec![]), vec!["No token policies found".to_string()]);
    assert_eq!(print_tsig_policies(&vec![]), vec!["No TSIG policies found".to_string()]);
}

#[test]
fn token_policies_in_fixed_columns() {
    let lines = print_token_policies(&vec![policy(1, "certbot"), policy(12, "ci")]);
    assert_eq!(
        lines,
        vec![
            "Token Policies:".to_string(),
            format!("{:<5} {:<25} {:<20} {:<20}", "ID", "TOKEN", "NAME PATTERN", "RECORD TYPES"),
            "-".repeat(75),
            format!("{:<5} {:<25} {:<20} {:<20}", 1, "certbot", "_acme-challenge", "TXT"),
            format!("{:<5} {:<25} {:<20} {:<20}", 12, "ci", "_acme-challenge", "TXT"),
        ]
    );
}

#[test]
fn tsig_policies_in_fixed_columns() {
    let lines = print_tsig_policies(&vec![policy(-3, "a-key-name-longer-than-thirty-characters")]);
    assert_eq!(
        lines,
        vec![
            "TSIG Policies:".to_string(),
            format!("{:<5} {:<30} {:<20} {:<20}", "ID", "TSIG KEY", "NAME PATTERN", "RECORD TYPES"),
            "-".repeat(80),
            format!("{:<5} {:<30} {:<20} {:<20}", -3, "a-key-name-longer-than-thirty-characters", "_acme-challenge", "TXT"),
        ]
    );
}
