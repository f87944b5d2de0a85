use vfio_pci::codegen::{
    gen_class_enum, gen_progif_enum, gen_subclass_enum, generate_tokens,
    has_progif_name_collision, sanitize,
};
use vfio_pci::ids::{Class, PciIds, ProgIf, SubClass};

fn display_class() -> Class {
    Class {
        id: 0x03,
        name: "Display controller".to_string(),
        subclasses: vec![
            SubClass {
                id: 0x00,
                name: "VGA compatible controller".to_string(),
                prog_ifs: vec![
                    ProgIf { id: 0x00, name: "VGA controller".to_string() },
                    ProgIf { id: 0x01, name: "8514 controller".to_string() },
                ],
            },
            SubClass { id: 0x01, name: "XGA compatible controller".to_string(), prog_ifs: vec![] },
        ],
    }
}

#[test]
fn sanitize_makes_camel_case() {
    assert_eq!(sanitize("Display controller"), "DisplayController");
    assert_eq!(sanitize("Non-Volatile memory controller"), "NonVolatileMemoryController");
    assert_eq!(sanitize("CXL Memory Device (CXL 2.x)"), "CXLMemoryDeviceCXL2X");
    assert_eq!(sanitize("8514 controller"), "8514Controller");
    assert_eq!(sanitize("---"), "");
}

#[test]
fn progif_enum_text() {
    let c = display_class();
    let text = gen_progif_enum(&c, &c.subclasses[0]);
    let expected = "pub enum DisplayControllerVGACompatibleControllerProgIf {\n    VGAController,\n    _8514Controller,\n}\n\nimpl DisplayControllerVGACompatibleControllerProgIf {\n    pub fn decode(prog_if: u8) -> Option<Self> {\n        match prog_if {\n            0x00 => Some(Self::VGAController),\n            0x01 => Some(Self::_8514Controller),\n            _ => None,\n        }\n    }\n}\n\n";
    assert_eq!(text, expected);
}

#[test]
fn subclass_enum_text() {
    let c = display_class();
    let text = gen_subclass_enum(&c);
    let expected = "pub enum DisplayControllerSubtype {\n    VGACompatibleController(DisplayControllerVGACompatibleControllerProgIf),\n    XGACompatibleController,\n}\n\nimpl DisplayControllerSubtype {\n    pub fn decode(subclass: u8, prog_if: u8) -> Option<Self> {\n        match subclass {\n            0x00 => match DisplayControllerVGACompatibleControllerProgIf::decode(prog_if) {\n                Some(p) => Some(Self::VGACompatibleController(p)),\n                None => None,\n            },\n            0x01 => Some(Self::XGACompatibleController),\n            _ => None,\n        }\n    }\n}\n\n";
    assert_eq!(text, expected);
}

#[test]
fn subclass_enum_of_leaf_class_is_empty() {
    let c = Class { id: 0x40, name: "Coprocessor".to_string(), subclasses: vec![] };
    assert_eq!(gen_subclass_enum(&c), "");
}

#[test]
fn class_enum_text() {
    let leaf = Class { id: 0x40, name: "Coprocessor".to_string(), subclasses: vec![] };
    let ids = PciIds { classes: vec![display_class(), leaf], vendors: vec![] };
    let text = gen_class_enum(&ids);
    let expected = "pub enum PciDeviceClass {\n    DisplayController(DisplayControllerSubtype),\n    Coprocessor,\n}\n\nimpl PciDeviceClass {\n    pub fn decode(class_code: u8, subclass: u8, prog_if: u8) -> Option<Self> {\n        match class_code {\n            0x03 => match DisplayControllerSubtype::decode(subclass, prog_if) {\n                Some(s) => Some(Self::DisplayController(s)),\n                None => None,\n            },\n            0x40 => Some(Self::Coprocessor),\n            _ => Some(Self::UnassignedClass),\n        }\n    }\n}\n\nimpl Default for PciDeviceClass {\n    fn default() -> Self {\n        PciDeviceClass::UnassignedClass\n    }\n}\n\n";
    assert_eq!(text, expected);
}

#[test]
fn generate_tokens_concatenates_all_parts() {
    let leaf = Class { id: 0x40, name: "Coprocessor".to_string(), subclasses: vec![] };
    let ids = PciIds { classes: vec![display_class(), leaf.clone()], vendors: vec![] };
    let whole = generate_tokens(&ids);
    let mut expected = String::new();
    expected.push_str(&gen_progif_enum(&ids.classes[0], &ids.classes[0].subclasses[0]));
    expected.push_str(&gen_subclass_enum(&ids.classes[0]));
    expected.push_str(&gen_subclass_enum(&leaf));
    expected.push_str(&gen_class_enum(&ids));
    assert_eq!(whole, expected);
}

#[test]
fn progif_name_collision_is_detected() {
    let pif = vec![ProgIf { id: 0, name: "Generic".to_string() }];
    let a = Class {
        id: 0x01,
        name: "Alpha Beta".to_string(),
        subclasses: vec![SubClass { id: 0, name: "Gamma".to_string(), prog_ifs: pif.clone() }],
    };
    let b = Class {
        id: 0x02,
        name: "Alpha".to_string(),
        subclasses: vec![SubClass { id: 0, name: "Beta Gamma".to_string(), prog_ifs: pif.clone() }],
    };
    // Two different class and subclass pairs sanitize to one name.
    let colliding = PciIds { classes: vec![a.clone(), b], vendors: vec![] };
    assert!(has_progif_name_collision(&colliding));
    let fine = PciIds { classes: vec![a, display_class()], vendors: vec![] };
    assert!(!has_progif_name_collision(&fine));
}
