use schemalens::compat::{are_types_compatible, normalize_type};

#[test]
fn normalization_lowercases_and_strips_size_suffix() {
    assert_eq!(normalize_type("VARCHAR(255)"), "varchar");
    assert_eq!(normalize_type("Numeric(10, 2)"), "numeric");
    assert_eq!(normalize_type("TEXT"), "text");
    assert_eq!(normalize_type("integer"), "integer");
}

#[test]
fn normalization_is_idempotent_on_samples() {
    for raw in ["VARCHAR(255)", "BIGINT", "Decimal(8,2)", "uuid", "weird(type)(x)"] {
        let once = normalize_type(raw);
        let twice = normalize_type(&once);
        assert_eq!(once, twice);
    }
}

#[test]
fn oracle_is_reflexive_and_symmetric_on_samples() {
    let samples = ["VARCHAR(10)", "int", "bigint", "uuid", "date", "blob"];
    for a in samples {
        assert!(are_types_compatible(a, a));
        for b in samples {
            assert_eq!(are_types_compatible(a, b), are_types_compatible(b, a));
        }
    }
}

#[test]
fn integer_family_members_are_compatible() {
    assert!(are_types_compatible("int", "BIGINT"));
    assert!(are_types_compatible("smallint", "serial"));
    assert!(are_types_compatible("tinyint", "bigserial"));
    assert!(are_types_compatible("INTEGER", "int"));
}

#[test]
fn string_family_members_are_compatible() {
    assert!(are_types_compatible("VARCHAR(255)", "text"));
    assert!(are_types_compatible("char(3)", "string"));
}

#[test]
fn uuid_matches_only_uuid() {
    assert!(are_types_compatible("UUID", "uuid"));
    assert!(!are_types_compatible("uuid", "varchar(36)"));
}

#[test]
fn incompatible_families_are_rejected() {
    assert!(!are_types_compatible("integer", "text"));
    assert!(!are_types_compatible("date", "timestamp"));
    assert!(!are_types_compatible("blob", "int"));
}
