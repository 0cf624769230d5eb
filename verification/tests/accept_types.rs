use aggregator::accept::parse_accept;
use aggregator::accept::AcceptType;
use aggregator::accept::BCS;
use aggregator::accept::BCS_OUTPUT_NEW;
use aggregator::accept::BCS_SIGNED_TRANSACTION;
use aggregator::accept::JSON;

#[test]
fn mime_type_constants() {
    assert_eq!(
        BCS_SIGNED_TRANSACTION,
        "application/x.aptos.signed_transaction+bcs"
    );
    assert_eq!(JSON, "application/json");
    assert_eq!(BCS, "application/x.aptos.output+bcs");
    assert_eq!(BCS_OUTPUT_NEW, "application/x-bcs");
}

#[test]
fn defaults_to_json() {
    assert!(parse_accept(&vec![]) == AcceptType::Json);
    let mimes = vec!["text/html".to_owned(), "application/json".to_owned()];
    assert!(parse_accept(&mimes) == AcceptType::Json);
}

#[test]
fn explicit_bcs_wins() {
    let mimes = vec!["application/x-bcs".to_owned()];
    assert!(parse_accept(&mimes) == AcceptType::Bcs);

    let mimes = vec![
        "application/json".to_owned(),
        "application/x.aptos.output+bcs".to_owned(),
    ];
    assert!(parse_accept(&mimes) == AcceptType::Bcs);
}

#[test]
fn near_misses_stay_json() {
    let mimes = vec![
        "application/x-bcs2".to_owned(),
        "application/x.aptos.output".to_owned(),
        "APPLICATION/X-BCS".to_owned(),
    ];
    assert!(parse_accept(&mimes) == AcceptType::Json);
}
