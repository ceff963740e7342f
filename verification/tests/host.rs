use dash_shielded::host::{is_prover_ready, set_document_directory, warm_up_prover};

#[test]
fn document_directory_is_the_one_set_last() {
    let mut directory: Option<String> = None;
    assert_eq!(set_document_directory(&mut directory, "/a".to_string()), Ok(()));
    assert_eq!(set_document_directory(&mut directory, "/b".to_string()), Ok(()));
    assert_eq!(directory, Some("/b".to_string()));
}

#[test]
fn prover_is_ready_once_it_was_warmed_up() {
    let mut ready = false;
    assert!(!is_prover_ready(Some(ready)));
    assert_eq!(warm_up_prover(&mut ready), Ok(()));
    assert!(is_prover_ready(Some(ready)));
    assert!(!is_prover_ready(None));
}
