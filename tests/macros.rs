use sandbox_utils::{invalid_arg, missing_arg, parse_value};

#[test]
fn test_macro_invalid_arg() {
    let result = invalid_arg("ALPack", "aports", "foo");
    assert!(result.is_err());
    let err_msg = result.unwrap_err();

    println!("\n{}", err_msg);

    assert!(err_msg.contains(": aports"));
    assert!(err_msg.contains("invalid argument 'foo'"));
    assert!(err_msg.contains("--help"));
}

#[test]
fn test_macro_missing_arg() {
    let res_normal = missing_arg("ALPack", "aports", false);
    let res_essential = missing_arg("ALPack", "aports", true);

    println!("{:?}", res_normal);
    println!("{:?}", res_essential);

    assert!(res_normal.unwrap_err().contains("no parameter specified"));
    assert!(res_essential.unwrap_err().contains("no essential parameter specified"));
}

#[test]
fn test_macro_parse_value() {
    let val1 = parse_value("ALPack", "aports", "pkg", "--get=wget", None)
        .expect("Failed to parse =");
    assert_eq!(val1, "wget");

    let next_arg = Some("curl");
    let val2 = parse_value("ALPack", "aports", "pkg", "--get", next_arg)
        .expect("Failed to parse space");
    assert_eq!(val2, "curl");

    let res_err = parse_value("ALPack", "aports", "pkg", "--get=", None);
    println!("{:?}\n", res_err);

    assert!(res_err.is_err());
    assert!(res_err.unwrap_err().contains("requires a <pkg>"));
}
