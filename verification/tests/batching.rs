use license_picker::batch::resolve_batch;
use license_picker::batch::select_licenses;
use license_picker::batch::SelectionError;
use license_picker::license::License;

fn strings(raw: &[&str]) -> Vec<String> {
    raw.iter().map(|s| String::from(*s)).collect()
}

#[test]
fn every_failure_is_collected_in_order() {
    let inputs = strings(&["mit", "bogus1", "apache", "bogus2"]);
    let (found, errors) = resolve_batch(&inputs);
    assert_eq!(found, vec![License::MIT, License::Apache]);
    assert_eq!(errors.len(), 2);
    assert_eq!(errors[0].input, "bogus1");
    assert_eq!(errors[1].input, "bogus2");
}

#[test]
fn selection_reports_all_bad_identifiers_together() {
    let inputs = strings(&["mit", "bogus1", "apache", "bogus2"]);
    match select_licenses(&inputs) {
        Err(SelectionError::Unresolved(errors)) => {
            assert_eq!(errors.len(), 2);
            assert_eq!(errors[0].input, "bogus1");
            assert_eq!(errors[1].input, "bogus2");
        },
        other => panic!("expected the unresolved identifiers, got {other:?}"),
    }
}

#[test]
fn a_wholly_valid_batch_is_selected_in_order() {
    let inputs = strings(&["mit", "APACHE", "gpl-3.0"]);
    let selected = select_licenses(&inputs).unwrap();
    assert_eq!(selected, vec![License::MIT, License::Apache, License::GPL3]);
}

#[test]
fn an_empty_input_list_is_its_own_failure() {
    let inputs: Vec<String> = Vec::new();
    match select_licenses(&inputs) {
        Err(SelectionError::EmptySelection) => {},
        other => panic!("expected the empty selection, got {other:?}"),
    }
}

#[test]
fn all_invalid_inputs_report_each_failure_not_emptiness() {
    let inputs = strings(&["bogus"]);
    match select_licenses(&inputs) {
        Err(SelectionError::Unresolved(errors)) => {
            assert_eq!(errors.len(), 1);
            assert_eq!(errors[0].input, "bogus");
        },
        other => panic!("expected the unresolved identifier, got {other:?}"),
    }
}

#[test]
fn duplicate_identifiers_are_kept() {
    let inputs = strings(&["mit", "MIT", "mit"]);
    let selected = select_licenses(&inputs).unwrap();
    assert_eq!(selected, vec![License::MIT, License::MIT, License::MIT]);
}
