use std::collections::HashMap;
use tinyjson::JsonValue;
use witness_gate::debug::{
    export_document, export_result, export_witness_json, first_unsupported_witness, ExportError,
    WitnessRecord,
};
use witness_gate::witness::{FieldElement, Witness};

fn element(low: u8, high: u8) -> FieldElement {
    let mut repr = [0u8; 32];
    repr[0] = low;
    repr[31] = high;
    FieldElement { repr }
}

fn text_of(low: &str, high: &str) -> String {
    format!("0x{}{}{}", high, "00".repeat(30), low)
}

#[test]
fn field_text_is_hex_most_significant_first() {
    assert_eq!(element(1, 0).debug_text(), text_of("01", "00"));
    assert_eq!(element(0xab, 0x3f).debug_text(), text_of("ab", "3f"));
    assert_eq!(
        element(0, 0).debug_text(),
        "0x0000000000000000000000000000000000000000000000000000000000000000"
    );
    let mut repr = [0u8; 32];
    for i in 0..32 {
        repr[i] = (i as u8) * 8 + 7;
    }
    assert_eq!(
        FieldElement { repr }.debug_text(),
        "0xfff7efe7dfd7cfc7bfb7afa79f978f877f776f675f574f473f372f271f170f07"
    );
}

#[test]
fn export_holds_a_record_per_witness_and_a_text_per_instance() {
    let x = element(5, 0);
    let y = element(6, 1);
    let z = element(7, 2);
    let doc = export_document(&vec![Witness::Base(Some(x)), Witness::Scalar(Some(y))], &vec![z]);
    assert_eq!(doc.witnesses.len(), 2);
    match &doc.witnesses[0] {
        WitnessRecord::Base(text) => assert_eq!(text, &text_of("05", "00")),
        _ => panic!("first record is not a base element"),
    }
    match &doc.witnesses[1] {
        WitnessRecord::Scalar(text) => assert_eq!(text, &text_of("06", "01")),
        _ => panic!("second record is not a scalar"),
    }
    assert_eq!(doc.instances, vec![text_of("07", "02")]);
}

#[test]
fn export_writes_json_with_both_fields() {
    let x = element(5, 0);
    let y = element(6, 1);
    let z = element(7, 2);
    let text =
        export_witness_json(&vec![Witness::Base(Some(x)), Witness::Scalar(Some(y))], &vec![z])
            .unwrap();
    let parsed: JsonValue = text.parse().unwrap();
    let top: &HashMap<String, JsonValue> = parsed.get().unwrap();
    assert_eq!(top.len(), 2);
    let witnesses: &Vec<JsonValue> = top["witnesses"].get().unwrap();
    assert_eq!(witnesses.len(), 2);
    let first: &HashMap<String, JsonValue> = witnesses[0].get().unwrap();
    assert_eq!(first.len(), 1);
    assert_eq!(first["Base"], JsonValue::String(text_of("05", "00")));
    let second: &HashMap<String, JsonValue> = witnesses[1].get().unwrap();
    assert_eq!(second.len(), 1);
    assert_eq!(second["Scalar"], JsonValue::String(text_of("06", "01")));
    let instances: &Vec<JsonValue> = top["instances"].get().unwrap();
    assert_eq!(instances, &vec![JsonValue::String(text_of("07", "02"))]);
}

#[test]
fn unassigned_witness_gives_an_empty_record() {
    let doc = export_document(&vec![Witness::Base(None), Witness::Scalar(None)], &vec![]);
    assert!(matches!(doc.witnesses[0], WitnessRecord::Empty));
    assert!(matches!(doc.witnesses[1], WitnessRecord::Empty));
    assert!(doc.instances.is_empty());
    let text = export_witness_json(&vec![Witness::Base(None)], &vec![]).unwrap();
    let parsed: JsonValue = text.parse().unwrap();
    let witnesses: &Vec<JsonValue> = parsed["witnesses"].get().unwrap();
    let record: &HashMap<String, JsonValue> = witnesses[0].get().unwrap();
    assert!(record.is_empty());
}

#[test]
fn export_of_nothing_has_two_empty_lists() {
    let text = export_witness_json(&vec![], &vec![]).unwrap();
    let parsed: JsonValue = text.parse().unwrap();
    let witnesses: &Vec<JsonValue> = parsed["witnesses"].get().unwrap();
    let instances: &Vec<JsonValue> = parsed["instances"].get().unwrap();
    assert!(witnesses.is_empty());
    assert!(instances.is_empty());
}

#[test]
fn export_stops_at_the_first_witness_it_cannot_show() {
    let witnesses = vec![
        Witness::Base(Some(element(1, 0))),
        Witness::Uint32(Some(4)),
        Witness::MerklePath(None),
    ];
    assert_eq!(first_unsupported_witness(&witnesses), Some(1));
    assert_eq!(first_unsupported_witness(&witnesses[..1].to_vec()), None);
    assert_eq!(first_unsupported_witness(&vec![Witness::Scalar(None)]), None);
    assert_eq!(first_unsupported_witness(&vec![Witness::EcPoint(None)]), Some(0));
    assert_eq!(first_unsupported_witness(&vec![Witness::EcNiPoint(None)]), Some(0));
    assert_eq!(first_unsupported_witness(&vec![Witness::EcFixedPoint(None)]), Some(0));
    assert_eq!(first_unsupported_witness(&vec![Witness::Uint64(None)]), Some(0));
}

#[test]
fn export_of_field_elements_always_gives_a_text() {
    let many: Vec<Witness> = (0..40u8)
        .map(|i| {
            if i % 3 == 0 {
                Witness::Base(Some(element(i, i)))
            } else if i % 3 == 1 {
                Witness::Scalar(None)
            } else {
                Witness::Scalar(Some(element(255 - i, 1)))
            }
        })
        .collect();
    assert_eq!(first_unsupported_witness(&many), None);
    let text = export_witness_json(&many, &vec![element(1, 2), element(3, 4)]);
    assert!(text.is_ok());
    let parsed: JsonValue = text.unwrap().parse().unwrap();
    let witnesses: &Vec<JsonValue> = parsed["witnesses"].get().unwrap();
    assert_eq!(witnesses.len(), 40);
}

#[test]
fn writer_failure_becomes_a_generate_error() {
    assert_eq!(export_result(None), Err(ExportError::Generate));
    assert_eq!(export_result(Some("{}".to_string())), Ok("{}".to_string()));
}
