use restify::ast::{RestMethods, RestVariant};
use restify::casing::{camelCase, create_type_identifier, method_param_name, method_struct_name, snake_case};

#[test]
fn snake() {
    let one = "IAmTyler";
    let two = vec!["I", "am", "tyler"];
    let thr = vec!["my", "GET", "parameter"];
    let fou = vec!["FromCamelCase"];

    let c1 = snake_case(&[one], false);
    let c2 = snake_case(&two, true);
    let c3 = snake_case(&thr, false);
    let c4 = snake_case(&fou, false);

    println!(" ->> snake_case_tests <<-- ");
    println!("ONE: {c1}");
    println!("TWO: {c2}");
    println!("THR: {c3}");
    println!("FOU: {c4}");

    assert_eq!(&c1, "i_am_tyler", "Should be \"i_am_tyler\"");
    assert_eq!(&c2, "I_am_tyler", "Should be \"I_am_tyler\"");
    assert_eq!(&c3, "my_GET_parameter", "Should be \"my_GET_parameter\"");
    assert_eq!(&c4, "from_camel_case", "Should be \"from_camel_case\"");
}

#[test]
fn camel2() {
    let camel = camelCase(&["DoesVecWork", "GET"], true);
    println!("CamelCase: {camel}");
    assert_eq!("DoesVecWorkGET", camel.as_str());
}

#[test]
fn camel() {
    let one = "I_am_tyler";
    let two = vec!["i", "am", "tyler"];
    let thr = vec!["my", "GET", "struct"];
    let fou = vec!["from_snake_case"];

    let c1 = camelCase(&[one], true);
    let c2 = camelCase(&two, false);
    let c3 = camelCase(&thr, true);
    let c4 = camelCase(&fou, false);

    println!(" ->> CamelCaseTests <<-- ");
    println!("ONE: {c1}");
    println!("TWO: {c2}");
    println!("THR: {c3}");
    println!("FOU: {c4}");

    assert_eq!(&c1, "IAmTyler", "Should be \"IAmTyler\"");
    assert_eq!(&c2, "iAmTyler", "Should be \"iAmTyler\"");
    assert_eq!(&c3, "MyGETStruct", "Should be \"MyGETStruct\"");
    assert_eq!(&c4, "fromSnakeCase", "Should be \"fromSnakeCase\"");
}

#[test]
fn type_identifier_capitalizes_each_word() {
    assert_eq!(create_type_identifier(&["my", "struct", "name"]), "MyStructName");
    assert_eq!(create_type_identifier(&["", "x"]), "X");
    assert_eq!(create_type_identifier(&["ßeta"]), "SSeta");
    assert_eq!(create_type_identifier(&[]), "");
}

#[test]
fn snake_case_of_nothing_is_empty() {
    assert_eq!(snake_case(&[], false), "");
    assert_eq!(snake_case(&["a", "b"], false), "a_b");
}

#[test]
fn camel_case_drops_digits_and_raises_after_dash() {
    assert_eq!(camelCase(&["one-two"], false), "oneTwo");
    assert_eq!(camelCase(&["v2_name"], false), "vName");
}

#[test]
fn method_struct_and_param_names() {
    assert_eq!(method_struct_name("DoesVecWork", RestMethods::GET), "DoesVecWorkGET");
    assert_eq!(method_struct_name("users", RestMethods::DELETE), "UsersDELETE");
    assert_eq!(method_param_name("MyIDs"), "my_i_ds");
    assert_eq!(method_param_name("Query"), "query");
    assert_eq!(RestMethods::OPTIONS.name(), "OPTIONS");
    assert_eq!(RestVariant::ReqRes.name(), "ReqRes");
}
