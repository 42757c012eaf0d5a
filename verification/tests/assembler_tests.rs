use dp2200::assembler::{
    assemble, get_instruction, get_label_or_address, parse_instruction, parse_label_list,
    remove_comment, strip, OpParser,
};

#[test]
fn assembler_test_remove_comment() {
    let mut s = String::from("Labe1: Add # This is a comment");
    remove_comment(&mut s);
    assert_eq!(s.as_str(), "Labe1: Add ");
}

#[test]
fn assembler_test_strip() {
    let mut s = String::from("  Test ");
    strip(&mut s);
    assert_eq!(s.as_str(), "Test");
}

#[test]
fn assembler_test_get_label() {
    let mut s = String::from("Label1: Add # This is a comment");
    let (label, address) = get_label_or_address(&mut s);
    remove_comment(&mut s);
    strip(&mut s);
    assert_eq!(s.as_str(), "Add");
    assert_eq!(label, Some(String::from("Label1")));
    assert_eq!(address, None);
}

#[test]
fn assembler_test_get_address() {
    let mut s = String::from("0050: Add # This is a comment");
    let (label, address) = get_label_or_address(&mut s);
    remove_comment(&mut s);
    strip(&mut s);
    assert_eq!(s.as_str(), "Add");
    assert_eq!(label, None);
    assert_eq!(address, Some(50));
}

#[test]
fn assembler_test_get_inst() {
    let mut s = String::from("0050: Add 2, 3# This is a comment");
    let (label, address) = get_label_or_address(&mut s);
    remove_comment(&mut s);
    strip(&mut s);
    assert_eq!(s.as_str(), "Add 2, 3");
    assert_eq!(get_instruction(&s).unwrap(), "Add");
    assert_eq!(label, None);
    assert_eq!(address, Some(50));
}

#[test]
fn assembler_test_pass_one() {
    let program = vec![
        "0050: Add 2",
        "label1: Sub 2",
        "LoadImm",
        "# This line is only a comment",
        "label2: Halt",
    ];
    let label_list = parse_label_list(&program).unwrap();
    assert_eq!(label_list[0].0, String::from("label1"));
    assert_eq!(label_list[0].1, 51);

    assert_eq!(label_list[1].0, String::from("label2"));
    assert_eq!(label_list[1].1, 54);
}

#[test]
fn assembler_test_parse_operands() {
    let l = String::from("Add 2, 3");
    let label_list = Vec::new();
    let mut op = OpParser::new(&l, &label_list).unwrap();
    assert_eq!(op.op().unwrap(), 2);
    assert_eq!(op.op().unwrap(), 3);
}

#[test]
fn assembler_test_parse_operands_with_label() {
    let l = String::from("Add 2, label1");
    let label_list = vec![(String::from("label1"), 3)];
    let mut op = OpParser::new(&l, &label_list).unwrap();
    assert_eq!(op.op().unwrap(), 2);
    assert_eq!(op.op().unwrap(), 3);
}

#[test]
fn assembler_test_parse_load() {
    let l = String::from("Load 2, 3");
    let label_list = Vec::new();
    let res = parse_instruction(&l, &label_list).unwrap();
    assert_eq!(res[0], 0xd3);
}

#[test]
fn assembler_test_parse_load_imm() {
    let l = String::from("LoadImm 2, 3");
    let label_list = Vec::new();
    let res = parse_instruction(&l, &label_list).unwrap();
    assert_eq!(res[0], 0x16);
    assert_eq!(res[1], 3);
}

#[test]
fn assembler_test_parse_jump() {
    let l = String::from("Jump 0x0f0f");
    let label_list = Vec::new();
    let res = parse_instruction(&l, &label_list).unwrap();
    assert_eq!(res[0], 0x44);
    assert_eq!(res[1], 0xf);
    assert_eq!(res[2], 0xf);
}

#[test]
fn assembler_test_parse_program() {
    let program = vec!["Add C", "label1: Sub 2", "10: Jump label1"];
    let res = assemble(program).unwrap();
    assert_eq!(res, vec![0x82, 0x92, 0, 0, 0, 0, 0, 0, 0, 0, 0x44, 1, 0]);
}

#[test]
fn test_parse_ascii() {
    let program = vec!["LoadImm A, 'C'"];
    let res = assemble(program).unwrap();
    assert_eq!(res, vec![0x6, 0x43]);
}

#[test]
fn test_error_messages() {
    let program = vec!["LoadImm A, c"];
    let res = assemble(program);
    println!("{:?}", res);
    assert!(res.is_err());
}
