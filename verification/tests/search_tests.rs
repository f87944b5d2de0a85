use vfio_pci::ids::{PciIds, Vendor};
use vfio_pci::search::{MatchMode, PciEntity, QueryTerm, SearchQuery};

fn sample_tree() -> PciIds {
    let input = "0e11  Compaq Computer Corporation\n\ta0f0  Advanced System Management Controller\n\t\t0e11 b0f3  ProLiant DL360\n01de  Oxide Computer Company\nC 03  Display controller\n\t00  VGA compatible controller\n\t\t00  VGA controller\n";
    PciIds::parse(input).unwrap()
}

#[test]
fn query_tokens_classify() {
    let q = SearchQuery::parse("dead:beef 16 300 0x10f0 Display");
    assert_eq!(q.mode, MatchMode::All);
    assert_eq!(
        q.terms,
        vec![
            QueryTerm::Subsystem { vendor: 0xdead, device: 0xbeef },
            QueryTerm::Id8(16),
            QueryTerm::Id16(300),
            QueryTerm::Id16(0x10f0),
            QueryTerm::Name("Display".to_string()),
        ]
    );
}

#[test]
fn query_of_empty_string_has_no_terms() {
    let q = SearchQuery::parse("   ");
    assert_eq!(q.terms, vec![]);
    assert_eq!(q.mode, MatchMode::All);
}

#[test]
fn name_search_is_case_insensitive() {
    let ids = sample_tree();
    let found = ids.search("OXIDE");
    assert_eq!(found.len(), 1);
    match found[0] {
        PciEntity::Vendor(v) => assert_eq!(v.name, "Oxide Computer Company"),
        _ => panic!("wrong entity kind"),
    }
}

#[test]
fn id_search_walks_the_whole_tree() {
    let ids = sample_tree();
    // 0x01de in decimal would be 478; the hex-from-0x form finds the vendor.
    let found = ids.search("0x01de");
    assert_eq!(found.len(), 1);
    assert!(matches!(found[0], PciEntity::Vendor(v) if v.id == 0x01de));

    // The subsystem pair matches only the subsystem entry.
    let found = ids.search("0e11:b0f3");
    assert_eq!(found.len(), 1);
    assert!(matches!(found[0], PciEntity::Subsystem(s) if s.name == "ProLiant DL360"));
}

#[test]
fn search_reports_classes_before_vendors() {
    let ids = sample_tree();
    let found = ids.search("controller");
    // "controller" appears in the class, its subclass, its prog-if, and
    // the Compaq device name, in that walking order.
    assert_eq!(found.len(), 4);
    assert!(matches!(found[0], PciEntity::Class(_)));
    assert!(matches!(found[1], PciEntity::SubClass(_)));
    assert!(matches!(found[2], PciEntity::ProgIf(_)));
    assert!(matches!(found[3], PciEntity::Device(_)));
}

#[test]
fn all_terms_must_match() {
    let ids = sample_tree();
    let found = ids.search("compaq corporation");
    assert_eq!(found.len(), 1);
    assert!(matches!(found[0], PciEntity::Vendor(_)));
    let found = ids.search("compaq oxide");
    assert_eq!(found.len(), 0);
}

#[test]
fn empty_query_reports_everything() {
    let v = Vendor { id: 1, name: "One".to_string(), devices: vec![] };
    let ids = PciIds { classes: vec![], vendors: vec![v] };
    let found = ids.search("");
    assert_eq!(found.len(), 1);
}
