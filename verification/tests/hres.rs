use wmi::hres::{to_class, to_detail};

#[test]
fn hres_names_wmi_status_codes() {
    assert_eq!(to_class(0x80041002u32 as i32), "WBEM_E_NOT_FOUND");
    assert_eq!(to_detail(0x80041002u32 as i32), "Object cannot be found.");
    assert_eq!(to_class(0x80043001u32 as i32), "WBEM_E_RETRY_LATER");
    assert_eq!(to_class(0x80043002u32 as i32), "WBEM_E_RESOURCE_CONTENTION");
}

#[test]
fn hres_families_of_other_codes() {
    assert_eq!(to_class(0x80070005u32 as i32), "OS");
    assert_eq!(to_class(0x80040154u32 as i32), "DCOM");
    assert_eq!(to_class(0x80050001u32 as i32), "ADSI/LDAP");
    assert_eq!(to_class(0x12345678), "UNKNOWN");
    assert_eq!(to_detail(0x80070005u32 as i32), "");
    assert_eq!(to_detail(0), "");
}

#[test]
fn hres_detail_exactly_for_named_codes() {
    let families = ["WMI", "OS", "DCOM", "ADSI/LDAP", "UNKNOWN"];
    let codes: [u32; 8] = [
        0x8004_1001, 0x8004_1068, 0x8004_1070, 0x8007_0005, 0x8004_0001, 0x8005_0001, 0x8004_3002, 0,
    ];
    for code in codes {
        let hres = code as i32;
        assert_eq!(!to_detail(hres).is_empty(), !families.contains(&to_class(hres)), "{:#x}", code);
    }
}
