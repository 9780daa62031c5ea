//! The library's own commands and primitives, called directly.
use comp::control::{capture_function, capture_lambda, choose_branch, repeat_tokens, skip_comment};
use comp::fault::{Construct, Fault, Reading, Warning};
use comp::function::{forget, is_user_function, Function};
use comp::integer::{checked_factorial, count_ones, gcd, hex_pair_of, int_apply};
use comp::interp::{read_value, Halt, Interpreter, Step};
use comp::level::annotate_level;
use comp::machine::{Command, Slot};
use comp::theme::{file_name, Color, Theme};
use comp::numeral::{i64_to_decimal, parse_i64, parse_u64, parse_u8, parse_usize, pattern_of};
use comp::queue::{copy_tokens, scan_close, splice_front, take_front};
use comp::table::Table;

fn tokens(text: &str) -> Vec<String> {
    text.split_whitespace().map(|t| t.to_string()).collect()
}

fn loaded(program: &str) -> Interpreter {
    let mut comp = Interpreter::new();
    comp.ops = tokens(program);
    comp
}

fn finished(program: &str) -> Interpreter {
    let mut comp = loaded(program);
    assert!(matches!(comp.process_ops(), Halt::Finished));
    comp
}

fn fault_of(program: &str) -> Fault {
    let mut comp = loaded(program);
    match comp.process_ops() {
        Halt::Fault { fault } => fault,
        other => panic!("no fault but {:?}", other),
    }
}

#[test]
fn literals_are_pushed_in_order() {
    assert_eq!(finished("1 2 3").get_stack(), vec!["1", "2", "3"]);
}

#[test]
fn empty_program_finishes_at_once() {
    let mut comp = Interpreter::new();
    assert!(matches!(comp.run(0), Halt::Finished));
    assert!(comp.get_stack().is_empty());
}

#[test]
fn step_budget_stops_a_run() {
    let mut comp = loaded("1 2 3");
    assert!(matches!(comp.run(2), Halt::Limit));
    assert_eq!(comp.get_stack(), vec!["1", "2"]);
    assert_eq!(comp.ops, vec!["3"]);
    assert!(matches!(comp.run(1), Halt::Finished));
    assert_eq!(comp.get_stack(), vec!["1", "2", "3"]);
}

#[test]
fn endless_recursion_is_stopped_by_the_budget() {
    let mut comp = loaded("( again again ) again");
    assert!(matches!(comp.run(1000), Halt::Limit));
}

#[test]
fn command_wins_over_function_and_memory() {
    let mut comp = Interpreter::new();
    comp.fns.push(Function { name: "dup".to_string(), fops: tokens("99") });
    comp.mem.insert("dup".to_string(), "77".to_string());
    comp.ops = tokens("5 dup");
    assert!(matches!(comp.process_ops(), Halt::Finished));
    assert_eq!(comp.get_stack(), vec!["5", "5"]);
}

#[test]
fn function_wins_over_memory() {
    let mut comp = Interpreter::new();
    comp.fns.push(Function { name: "k".to_string(), fops: tokens("1 2") });
    comp.mem.insert("k".to_string(), "77".to_string());
    comp.ops = tokens("k");
    assert!(matches!(comp.process_ops(), Halt::Finished));
    assert_eq!(comp.get_stack(), vec!["1", "2"]);
}

#[test]
fn first_function_of_a_name_wins() {
    assert_eq!(finished("( f 1 ) ( f 2 ) f").get_stack(), vec!["1"]);
}

#[test]
fn memory_wins_over_literal() {
    assert_eq!(finished("7 k store k").get_stack(), vec!["7"]);
    assert_eq!(finished("7 k store 8 k store k").get_stack(), vec!["8"]);
}

#[test]
fn host_command_halts_the_run_with_its_name() {
    let mut comp = loaded("3 4 + 5");
    match comp.process_ops() {
        Halt::Host { command } => assert_eq!(command, "+"),
        other => panic!("{:?}", other),
    }
    assert_eq!(comp.get_stack(), vec!["3", "4"]);
    assert_eq!(comp.ops, vec!["5"]);
}

#[test]
fn ifeq_hands_the_two_values_to_the_host() {
    let mut comp = loaded("1 5 6 ifeq 10 else 20 fi 30");
    match comp.process_ops() {
        Halt::Compare { a, b } => {
            assert_eq!(a, "5");
            assert_eq!(b, "6");
        }
        other => panic!("{:?}", other),
    }
    assert_eq!(comp.get_stack(), vec!["1"]);
    assert!(matches!(comp.branch(false), Ok(Step::Next)));
    assert_eq!(comp.ops, vec!["20", "30"]);
}

#[test]
fn branch_keeps_then_body_on_equal() {
    let mut ops = tokens("a b else c d fi e");
    assert!(choose_branch(&mut ops, true).is_ok());
    assert_eq!(ops, vec!["a", "b", "e"]);
}

#[test]
fn branch_keeps_else_body_on_unequal() {
    let mut ops = tokens("a b else c d fi e");
    assert!(choose_branch(&mut ops, false).is_ok());
    assert_eq!(ops, vec!["c", "d", "e"]);
}

#[test]
fn branch_without_else() {
    let mut ops = tokens("a b fi e");
    assert!(choose_branch(&mut ops, false).is_ok());
    assert_eq!(ops, vec!["e"]);
    let mut ops = tokens("a b fi e");
    assert!(choose_branch(&mut ops, true).is_ok());
    assert_eq!(ops, vec!["a", "b", "e"]);
    let mut ops = tokens("fi");
    assert!(choose_branch(&mut ops, true).is_ok());
    assert!(ops.is_empty());
}

#[test]
fn branch_skips_nested_conditionals_in_both_bodies() {
    let program = "1 ifeq 2 else 3 fi 4 else 5 ifeq 6 else 7 fi 8 fi 9";
    let mut ops = tokens(program);
    assert!(choose_branch(&mut ops, true).is_ok());
    assert_eq!(ops, tokens("1 ifeq 2 else 3 fi 4 9"));
    let mut ops = tokens(program);
    assert!(choose_branch(&mut ops, false).is_ok());
    assert_eq!(ops, tokens("5 ifeq 6 else 7 fi 8 9"));
}

#[test]
fn unterminated_conditional_is_a_fault() {
    for program in ["a b", "a else b", "a ifeq b fi c", "a else b ifeq c fi", ""] {
        let mut ops = tokens(program);
        let before = ops.clone();
        match choose_branch(&mut ops, true) {
            Err(Fault::Unterminated { construct: Construct::Conditional }) => {}
            other => panic!("{:?}", other),
        }
        assert_eq!(ops, before);
    }
    assert!(matches!(
        {
            let mut comp = loaded("1 1 ifeq 2");
            assert!(matches!(comp.process_ops(), Halt::Compare { .. }));
            comp.branch(true)
        },
        Err(Fault::Unterminated { construct: Construct::Conditional })
    ));
}

#[test]
fn function_capture_takes_name_and_body() {
    let mut ops = tokens("sq dup x ) 4 sq");
    let f = capture_function(&mut ops).unwrap();
    assert_eq!(f.name, "sq");
    assert_eq!(f.fops, vec!["dup", "x"]);
    assert_eq!(ops, vec!["4", "sq"]);
}

#[test]
fn function_capture_stops_at_first_terminator() {
    let mut ops = tokens("f ( g 1 ) 2 )");
    let f = capture_function(&mut ops).unwrap();
    assert_eq!(f.name, "f");
    assert_eq!(f.fops, vec!["(", "g", "1"]);
    assert_eq!(ops, vec!["2", ")"]);
}

#[test]
fn function_with_empty_body() {
    let mut ops = tokens("f )");
    let f = capture_function(&mut ops).unwrap();
    assert_eq!(f.name, "f");
    assert!(f.fops.is_empty());
    assert!(ops.is_empty());
}

#[test]
fn unterminated_function_is_a_fault() {
    for program in ["", "f", "f 1 2", ")"] {
        let mut ops = tokens(program);
        let before = ops.clone();
        match capture_function(&mut ops) {
            Err(Fault::Unterminated { construct: Construct::Function }) => {}
            other => panic!("{:?}", other),
        }
        assert_eq!(ops, before);
    }
    assert!(matches!(
        fault_of("1 ( f 2 3"),
        Fault::Unterminated { construct: Construct::Function }
    ));
}

#[test]
fn lambda_capture_takes_body() {
    let mut ops = tokens("1 + ] map");
    assert_eq!(capture_lambda(&mut ops).unwrap(), vec!["1", "+"]);
    assert_eq!(ops, vec!["map"]);
}

#[test]
fn unterminated_lambda_is_a_fault() {
    let mut ops = tokens("1 +");
    match capture_lambda(&mut ops) {
        Err(Fault::Unterminated { construct: Construct::Lambda }) => {}
        other => panic!("{:?}", other),
    }
    assert_eq!(ops, vec!["1", "+"]);
    assert!(matches!(fault_of("[ 1"), Fault::Unterminated { construct: Construct::Lambda }));
}

#[test]
fn new_lambda_leaves_exactly_one() {
    let mut comp = Interpreter::new();
    comp.fns.push(Function { name: "_".to_string(), fops: tokens("1") });
    comp.fns.push(Function { name: "f".to_string(), fops: tokens("2") });
    comp.fns.push(Function { name: "_".to_string(), fops: tokens("3") });
    comp.ops = tokens("[ 4 ] _");
    assert!(matches!(comp.process_ops(), Halt::Finished));
    assert_eq!(comp.get_stack(), vec!["4"]);
    assert_eq!(comp.fns.len(), 2);
    assert_eq!(comp.fns[0].name, "f");
    assert_eq!(comp.fns[1].name, "_");
    assert_eq!(comp.fns[1].fops, vec!["4"]);
}

#[test]
fn forget_removes_every_function_of_the_name() {
    let mut fns = vec![
        Function { name: "a".to_string(), fops: vec![] },
        Function { name: "b".to_string(), fops: vec![] },
        Function { name: "a".to_string(), fops: vec![] },
        Function { name: "c".to_string(), fops: vec![] },
    ];
    assert_eq!(is_user_function(&fns, "a"), Some(0));
    assert_eq!(is_user_function(&fns, "c"), Some(3));
    assert_eq!(is_user_function(&fns, "d"), None);
    forget(&mut fns, "a");
    let names: Vec<&str> = fns.iter().map(|f| f.name.as_str()).collect();
    assert_eq!(names, vec!["b", "c"]);
}

#[test]
fn comment_is_skipped_with_its_nested_comments() {
    let mut ops = tokens("a { b } c } d");
    assert!(skip_comment(&mut ops).is_ok());
    assert_eq!(ops, vec!["d"]);
    assert_eq!(finished("1 { 2 { 3 } { 4 { 5 } } 6 } 7").get_stack(), vec!["1", "7"]);
    assert_eq!(finished("1 { } 7").get_stack(), vec!["1", "7"]);
}

#[test]
fn unterminated_comment_is_a_fault() {
    let mut ops = tokens("a { b } c");
    match skip_comment(&mut ops) {
        Err(Fault::Unterminated { construct: Construct::Comment }) => {}
        other => panic!("{:?}", other),
    }
    assert_eq!(ops, tokens("a { b } c"));
    assert!(matches!(fault_of("1 { 2 3"), Fault::Unterminated { construct: Construct::Comment }));
}

#[test]
fn map_injects_one_call_for_each_value() {
    let mut comp = loaded("1 2 3 [ ] map 9");
    assert!(matches!(comp.run(5), Halt::Limit));
    assert_eq!(comp.ops, tokens("rot _ rot _ rot _ 9"));
    assert_eq!(comp.get_stack(), vec!["1", "2", "3"]);
}

#[test]
fn map_count_is_taken_before_the_calls_change_the_stack() {
    assert_eq!(finished("1 2 3 [ dup ] map").get_stack(), vec!["1", "1", "2", "2", "3", "3"]);
    assert_eq!(finished("1 2 3 [ drop ] map").get_stack().len(), 0);
}

#[test]
fn fold_injects_one_call_less_than_values() {
    let mut comp = loaded("1 2 3 4 [ ] fold");
    assert!(matches!(comp.run(6), Halt::Limit));
    assert_eq!(comp.ops, tokens("rot _ rot _ rot _"));
}

#[test]
fn scan_injects_rotation_then_kept_calls() {
    let mut comp = loaded("1 2 3 [ ] scan");
    assert!(matches!(comp.run(5), Halt::Limit));
    assert_eq!(comp.ops, tokens("rot dup rot _ dup rot _"));
    let mut comp = loaded("1 [ ] scan");
    assert!(matches!(comp.run(3), Halt::Limit));
    assert_eq!(comp.ops, tokens("rot"));
}

#[test]
fn combinators_need_values_and_a_lambda() {
    match fault_of("[ ] map") {
        Fault::StackUnderflow { command, needed } => {
            assert_eq!(command, "map");
            assert_eq!(needed, 1);
        }
        other => panic!("{:?}", other),
    }
    match fault_of("1 2 [ ] fold") {
        Fault::StackUnderflow { command, needed } => {
            assert_eq!(command, "fold");
            assert_eq!(needed, 3);
        }
        other => panic!("{:?}", other),
    }
    match fault_of("1 2 3 scan") {
        Fault::NoLambda { command } => assert_eq!(command, "scan"),
        other => panic!("{:?}", other),
    }
}

#[test]
fn repeat_tokens_repeats_in_order() {
    assert_eq!(repeat_tokens(&tokens("a b"), 3), tokens("a b a b a b"));
    assert!(repeat_tokens(&tokens("a b"), 0).is_empty());
}

#[test]
fn scan_close_tracks_depth() {
    let ops = tokens("a ifeq b fi c fi d");
    let open = "ifeq".to_string();
    let close = "fi".to_string();
    let other = "else".to_string();
    assert_eq!(scan_close(&ops, 0, &open, &close, Some(&other)), Some(5));
    assert_eq!(scan_close(&ops, 2, &open, &close, None), Some(3));
    assert_eq!(scan_close(&ops, 6, &open, &close, None), None);
    let ops = tokens("a ifeq else fi else fi");
    assert_eq!(scan_close(&ops, 0, &open, &close, Some(&other)), Some(4));
    assert_eq!(scan_close(&ops, 0, &open, &close, None), Some(5));
}

#[test]
fn queue_primitives_keep_order() {
    let mut ops = tokens("a b c d");
    assert_eq!(take_front(&mut ops, 3), tokens("a b c"));
    assert_eq!(ops, tokens("d"));
    splice_front(&mut ops, tokens("x y"));
    assert_eq!(ops, tokens("x y d"));
    assert_eq!(copy_tokens(&ops), ops);
    assert!(take_front(&mut ops, 0).is_empty());
}

#[test]
fn stack_depth_guard() {
    let comp = finished("1 2");
    assert!(comp.check_stack_error(2, "swap").is_ok());
    match comp.check_stack_error(3, "fold") {
        Err(Fault::StackUnderflow { command, needed }) => {
            assert_eq!(command, "fold");
            assert_eq!(needed, 3);
        }
        other => panic!("{:?}", other),
    }
}

#[test]
fn drop_on_empty_stack_warns_and_goes_on() {
    let comp = finished("drop 1");
    assert_eq!(comp.get_stack(), vec!["1"]);
    assert_eq!(comp.warnings.len(), 1);
    match &comp.warnings[0] {
        Warning::EmptyStack { command, times } => {
            assert_eq!(command, "drop");
            assert_eq!(*times, 1);
        }
        other => panic!("{:?}", other),
    }
    assert!(finished("1 2 drop").warnings.is_empty());
    assert_eq!(finished("1 2 drop").get_stack(), vec!["1"]);
}

#[test]
fn dropn_takes_its_count_and_the_top_value() {
    assert_eq!(finished("1 2 3 2 dropn").get_stack(), vec!["1", "2"]);
    let comp = finished("3 dropn");
    assert!(comp.get_stack().is_empty());
    match &comp.warnings[0] {
        Warning::EmptyStack { command, times } => {
            assert_eq!(command, "dropn");
            assert_eq!(*times, 3);
        }
        other => panic!("{:?}", other),
    }
    match fault_of("1 0 dropn") {
        Fault::BadArgument { command, argument } => {
            assert_eq!(command, "dropn");
            assert_eq!(argument, "0");
        }
        other => panic!("{:?}", other),
    }
    assert!(matches!(fault_of("1 x1 dropn"), Fault::BadValue { reading: Reading::Signed, .. }));
    assert!(matches!(fault_of("dropn"), Fault::StackUnderflow { needed: 1, .. }));
}

#[test]
fn stack_commands_move_values() {
    assert_eq!(finished("1 2 3 dup").get_stack(), vec!["1", "2", "3", "3"]);
    assert_eq!(finished("1 2 3 swap").get_stack(), vec!["1", "3", "2"]);
    assert_eq!(finished("1 2 3 roll").get_stack(), vec!["3", "1", "2"]);
    assert_eq!(finished("1 2 3 rot").get_stack(), vec!["2", "3", "1"]);
    assert_eq!(finished("1 2 3 rev").get_stack(), vec!["3", "2", "1"]);
    assert_eq!(finished("1 2 3 take").get_stack(), vec!["3"]);
    assert!(finished("1 2 3 cls").get_stack().is_empty());
    assert_eq!(finished("1 2 3 4 5 2 rotn").get_stack(), vec!["3", "4", "5", "1", "2"]);
    assert_eq!(finished("1 2 3 4 5 2 rolln").get_stack(), vec!["4", "5", "1", "2", "3"]);
    assert_eq!(finished("1 2 3 4 5 0 rolln").get_stack(), vec!["1", "2", "3", "4", "5"]);
    assert_eq!(finished("1 2 3 4 5 5 rotn").get_stack(), vec!["1", "2", "3", "4", "5"]);
    assert_eq!(finished("1 2 3 4 5 2 taken").get_stack(), vec!["4", "5"]);
    assert_eq!(finished("4 io").get_stack(), vec!["1", "2", "3", "4"]);
}

#[test]
fn stack_commands_guard_their_depth() {
    assert!(matches!(fault_of("dup"), Fault::StackUnderflow { needed: 1, .. }));
    assert!(matches!(fault_of("1 swap"), Fault::StackUnderflow { needed: 2, .. }));
    assert!(matches!(fault_of("roll"), Fault::StackUnderflow { needed: 1, .. }));
    assert!(matches!(fault_of("rot"), Fault::StackUnderflow { needed: 1, .. }));
    assert!(matches!(fault_of("1 rolln"), Fault::StackUnderflow { needed: 2, .. }));
    assert!(matches!(fault_of("1 rotn"), Fault::StackUnderflow { needed: 2, .. }));
    assert!(matches!(fault_of("take"), Fault::StackUnderflow { needed: 1, .. }));
    assert!(matches!(fault_of("taken"), Fault::StackUnderflow { needed: 1, .. }));
    assert!(matches!(fault_of("io"), Fault::StackUnderflow { needed: 1, .. }));
    assert!(matches!(fault_of("k store"), Fault::StackUnderflow { needed: 2, .. }));
    assert!(matches!(fault_of("1 ifeq"), Fault::StackUnderflow { needed: 2, .. }));
    assert!(matches!(fault_of("!"), Fault::StackUnderflow { needed: 1, .. }));
    assert!(matches!(fault_of("1 gcd"), Fault::StackUnderflow { needed: 2, .. }));
    assert!(matches!(fault_of("dec_hex"), Fault::StackUnderflow { needed: 1, .. }));
    assert!(matches!(fault_of("hex_rgb"), Fault::StackUnderflow { needed: 1, .. }));
    assert!(matches!(fault_of("1 2 rgb_hex"), Fault::StackUnderflow { needed: 3, .. }));
}

#[test]
fn counts_beyond_the_stack() {
    match fault_of("1 2 3 rotn") {
        Fault::BadArgument { command, argument } => {
            assert_eq!(command, "rotn");
            assert_eq!(argument, "3");
        }
        other => panic!("{:?}", other),
    }
    assert!(matches!(fault_of("1 2 3 rolln"), Fault::BadArgument { .. }));
    assert!(matches!(fault_of("1 2 -1 rolln"), Fault::BadValue { reading: Reading::Size, .. }));
    let comp = finished("1 2 5 taken");
    assert_eq!(comp.get_stack(), vec!["1", "2"]);
    match &comp.warnings[0] {
        Warning::TakeBeyondDepth { command, asked, depth } => {
            assert_eq!(command, "taken");
            assert_eq!(*asked, 5);
            assert_eq!(*depth, 2);
        }
        other => panic!("{:?}", other),
    }
    assert!(matches!(fault_of("1 2 0 taken"), Fault::BadArgument { .. }));
    assert!(matches!(fault_of("1 0 io"), Fault::BadArgument { .. }));
    assert!(matches!(fault_of("1 -3 io"), Fault::BadArgument { .. }));
}

#[test]
fn typed_pops_read_the_top_value() {
    let mut comp = finished("-12 34 255 ff -1f 101 7");
    assert_eq!(comp.pop_stack_usize().unwrap(), 7);
    assert_eq!(comp.pop_stack_int_from_bin().unwrap(), 5);
    assert_eq!(comp.pop_stack_int_from_hex().unwrap(), -31);
    assert_eq!(comp.pop_stack_u8_from_hex().unwrap(), 255);
    assert_eq!(comp.pop_stack_u8().unwrap(), 255);
    assert_eq!(comp.pop_stack_u64().unwrap(), 34);
    assert_eq!(comp.pop_stack_i64().unwrap(), -12);
    assert!(comp.get_stack().is_empty());
}

#[test]
fn typed_pops_report_the_value_they_cannot_read() {
    let mut comp = finished("256 1.5");
    match comp.pop_stack_u64() {
        Err(Fault::BadValue { value, reading }) => {
            assert_eq!(value, "1.5");
            assert_eq!(reading, Reading::Unsigned);
        }
        other => panic!("{:?}", other),
    }
    assert!(matches!(comp.pop_stack_u8(), Err(Fault::BadValue { reading: Reading::Byte, .. })));
    assert!(comp.get_stack().is_empty());
    let mut comp = finished("100 2 q");
    assert!(matches!(comp.pop_stack_int_from_hex(), Err(Fault::BadValue { .. })));
    assert!(matches!(comp.pop_stack_int_from_bin(), Err(Fault::BadValue { .. })));
    assert!(matches!(comp.pop_stack_u8_from_hex(), Err(Fault::BadValue { .. })));
}

#[test]
fn numbers_are_read_as_their_spelling_says() {
    assert_eq!(parse_u64("0"), Some(0));
    assert_eq!(parse_u64("+17"), Some(17));
    assert_eq!(parse_u64("007"), Some(7));
    assert_eq!(parse_u64("18446744073709551615"), Some(u64::MAX));
    assert_eq!(parse_u64("18446744073709551616"), None);
    assert_eq!(parse_u64(""), None);
    assert_eq!(parse_u64("+"), None);
    assert_eq!(parse_u64("-1"), None);
    assert_eq!(parse_u64("-0"), None);
    assert_eq!(parse_u64("1 "), None);
    assert_eq!(parse_u64("1_0"), None);
    assert_eq!(parse_u64("++1"), None);
    assert_eq!(parse_u64("a"), None);
    assert_eq!(parse_i64("-9223372036854775808"), Some(i64::MIN));
    assert_eq!(parse_i64("9223372036854775807"), Some(i64::MAX));
    assert_eq!(parse_i64("9223372036854775808"), None);
    assert_eq!(parse_i64("-0"), Some(0));
    assert_eq!(parse_i64("-"), None);
    assert_eq!(parse_i64("-+1"), None);
    assert_eq!(parse_i64("+5"), Some(5));
    assert_eq!(parse_u8("255"), Some(255));
    assert_eq!(parse_u8("256"), None);
    assert_eq!(parse_usize("12"), Some(12));
    assert_eq!(read_value("FF", Reading::Hex), Some(255));
    assert_eq!(read_value("-fF", Reading::Hex), Some(-255));
    assert_eq!(read_value("zz", Reading::Hex), None);
    assert_eq!(read_value("ff", Reading::HexByte), Some(255));
    assert_eq!(read_value("100", Reading::HexByte), None);
    assert_eq!(read_value("-0", Reading::HexByte), None);
    assert_eq!(read_value("-101", Reading::Binary), Some(-5));
    assert_eq!(read_value("102", Reading::Binary), None);
    assert_eq!(read_value("12", Reading::Size), Some(12));
}

#[test]
fn numbers_are_written_without_leading_zeros() {
    assert_eq!(i64_to_decimal(0), "0");
    assert_eq!(i64_to_decimal(-1), "-1");
    assert_eq!(i64_to_decimal(i64::MIN), "-9223372036854775808");
    assert_eq!(i64_to_decimal(i64::MAX), "9223372036854775807");
    assert_eq!(pattern_of(-1), u64::MAX);
    assert_eq!(pattern_of(5), 5);
    assert_eq!(pattern_of(i64::MIN), 1u64 << 63);
    assert_eq!(hex_pair_of(0), "00");
    assert_eq!(hex_pair_of(10), "0a");
    assert_eq!(hex_pair_of(255), "ff");
    assert_eq!(hex_pair_of(256), "100");
}

#[test]
fn conversions_between_writings() {
    assert_eq!(finished("255 dec_hex").get_stack(), vec!["ff"]);
    assert_eq!(finished("ff hex_dec").get_stack(), vec!["255"]);
    assert_eq!(finished("-ff hex_dec").get_stack(), vec!["-255"]);
    assert_eq!(finished("5 dec_bin").get_stack(), vec!["101"]);
    assert_eq!(finished("101 bin_dec").get_stack(), vec!["5"]);
    assert_eq!(finished("11111111 bin_hex").get_stack(), vec!["ff"]);
    assert_eq!(finished("-1 bin_hex").get_stack(), vec!["ffffffffffffffff"]);
    assert_eq!(finished("a hex_bin").get_stack(), vec!["1010"]);
    assert_eq!(finished("0 dec_hex").get_stack(), vec!["0"]);
    assert!(matches!(fault_of("-1 dec_hex"), Fault::BadValue { reading: Reading::Unsigned, .. }));
    assert!(matches!(fault_of("12 bin_dec"), Fault::BadValue { reading: Reading::Binary, .. }));
    assert!(matches!(fault_of("xyz hex_dec"), Fault::BadValue { reading: Reading::Hex, .. }));
}

#[test]
fn colour_conversions() {
    assert_eq!(finished("ff8000 hex_rgb").get_stack(), vec!["255", "128", "0"]);
    assert_eq!(finished("ff800 hex_rgb").get_stack(), vec!["255", "128", "0"]);
    assert_eq!(finished("255 128 0 rgb_hex").get_stack(), vec!["ff8000"]);
    assert_eq!(finished("1 2 3 rgb_hex").get_stack(), vec!["010203"]);
    match fault_of("ff80 hex_rgb") {
        Fault::BadArgument { command, argument } => {
            assert_eq!(command, "hex_rgb");
            assert_eq!(argument, "ff80");
        }
        other => panic!("{:?}", other),
    }
    assert!(matches!(fault_of("ggg000 hex_rgb"), Fault::BadValue { reading: Reading::Hex, .. }));
    assert!(matches!(fault_of("\u{e9}\u{e9}\u{e9}\u{e9}\u{e9} hex_rgb"), Fault::BadArgument { .. }));
    assert!(matches!(fault_of("1 2 q rgb_hex"), Fault::BadValue { .. }));
}

#[test]
fn integer_commands() {
    assert_eq!(finished("5 !").get_stack(), vec!["120"]);
    assert_eq!(finished("0 !").get_stack(), vec!["1"]);
    assert_eq!(finished("20 !").get_stack(), vec!["2432902008176640000"]);
    assert_eq!(finished("55 10 gcd").get_stack(), vec!["5"]);
    assert_eq!(finished("0 7 gcd").get_stack(), vec!["7"]);
    assert_eq!(finished("20 tng").get_stack(), vec!["210"]);
    assert_eq!(finished("10 6 and").get_stack(), vec!["2"]);
    assert_eq!(finished("10 6 or").get_stack(), vec!["14"]);
    assert_eq!(finished("10 6 xor").get_stack(), vec!["12"]);
    assert_eq!(finished("0 not").get_stack(), vec!["18446744073709551615"]);
    assert_eq!(finished("10 6 nand").get_stack(), vec!["18446744073709551613"]);
    assert_eq!(finished("10 6 nor").get_stack(), vec!["18446744073709551601"]);
    assert_eq!(finished("341 ones").get_stack(), vec!["5"]);
    assert_eq!(finished("9 8 6 gcd").get_stack(), vec!["9", "2"]);
}

#[test]
fn integer_results_beyond_64_bits_are_faults() {
    match fault_of("21 !") {
        Fault::Overflow { command } => assert_eq!(command, "!"),
        other => panic!("{:?}", other),
    }
    assert!(matches!(fault_of("18446744073709551615 tng"), Fault::Overflow { .. }));
    assert!(matches!(fault_of("4294967296 tng"), Fault::Overflow { .. }));
    assert_eq!(finished("4294967295 tng").get_stack(), vec!["9223372034707292160"]);
    assert_eq!(checked_factorial(20), Some(2432902008176640000));
    assert_eq!(checked_factorial(21), None);
    assert_eq!(checked_factorial(u64::MAX), None);
    assert_eq!(gcd(3049, 1009), 1);
    assert_eq!(gcd(0, 0), 0);
    assert_eq!(count_ones(u64::MAX), 64);
    assert_eq!(count_ones(0), 0);
    assert_eq!(int_apply(Command::Triangle, 4, 0), Some(10));
    assert_eq!(int_apply(Command::Xor, 12, 10), Some(6));
}

#[test]
fn integer_operands_are_taken_last_first() {
    assert!(matches!(fault_of("7 a b gcd"), Fault::BadValue { .. }));
    let mut comp = loaded("7 a 4 gcd");
    match comp.process_ops() {
        Halt::Fault { fault: Fault::BadValue { value, .. } } => assert_eq!(value, "a"),
        other => panic!("{:?}", other),
    }
    assert_eq!(comp.get_stack(), vec!["7"]);
}

#[test]
fn command_table_can_be_extended() {
    let mut comp = Interpreter::new();
    assert!(comp.get_cmds().contains(&"ifeq".to_string()));
    assert!(!comp.get_cmds().contains(&"twice".to_string()));
    comp.build_native("twice", Command::Dup);
    comp.build_native("+", Command::Gcd);
    assert!(comp.get_cmds().contains(&"twice".to_string()));
    comp.ops = tokens("12 18 + twice");
    assert!(matches!(comp.process_ops(), Halt::Finished));
    assert_eq!(comp.get_stack(), vec!["6", "6"]);
    let mut names = comp.get_cmds();
    let before = names.len();
    names.sort();
    names.dedup();
    assert_eq!(names.len(), before);
}

#[test]
fn table_keeps_the_last_value_of_a_key() {
    let mut t: Table<u8> = Table::new();
    assert!(!t.contains_key("a"));
    assert_eq!(t.get("a"), None);
    t.insert("a".to_string(), 1);
    t.insert("b".to_string(), 2);
    t.insert("a".to_string(), 3);
    assert_eq!(t.get("a"), Some(&3));
    assert_eq!(t.get("b"), Some(&2));
    assert_eq!(t.keys(), vec!["a", "b"]);
}

#[test]
fn stack_snapshot_round_trip() {
    let comp = finished("1 two 3.5 -4");
    let text = comp.save_stack().unwrap();
    assert_eq!(text, "- '1'\n- two\n- '3.5'\n- '-4'\n");
    let mut other = finished("9 9");
    assert!(other.load_stack(&text));
    assert_eq!(other.get_stack(), vec!["1", "two", "3.5", "-4"]);
    assert!(other.warnings.is_empty());
}

#[test]
fn corrupt_snapshot_leaves_the_stack() {
    let mut comp = finished("9 8");
    assert!(!comp.load_stack("key: value"));
    assert_eq!(comp.get_stack(), vec!["9", "8"]);
    assert!(matches!(comp.warnings[0], Warning::CorruptSnapshot));
    assert!(!comp.restore_stack(None));
    assert_eq!(comp.warnings.len(), 2);
    assert!(comp.restore_stack(Some(tokens("a b"))));
    assert_eq!(comp.get_stack(), vec!["a", "b"]);
    assert!(comp.load_stack("[]"));
    assert!(comp.get_stack().is_empty());
}

#[test]
fn level_marks() {
    assert_eq!(annotate_level(1), "a.");
    assert_eq!(annotate_level(2), "b.");
    assert_eq!(annotate_level(8), "h.");
    assert_eq!(annotate_level(9), "  ");
    assert_eq!(annotate_level(0), "  ");
}

#[test]
fn memory_slots_keep_what_was_stored() {
    let mut comp = finished("7 8");
    assert_eq!(comp.mem_a, "0");
    assert!(matches!(comp.c_push_b("_b"), Ok(Step::Next)));
    assert_eq!(comp.get_stack(), vec!["7", "8", "0"]);
    assert!(matches!(comp.c_store_a("sa"), Ok(Step::Next)));
    assert!(matches!(comp.c_store_c("sc"), Ok(Step::Next)));
    assert_eq!(comp.get_stack(), vec!["7"]);
    assert!(matches!(comp.c_push_a("_a"), Ok(Step::Next)));
    assert!(matches!(comp.c_push_a("_a"), Ok(Step::Next)));
    assert!(matches!(comp.c_push_c("_c"), Ok(Step::Next)));
    assert_eq!(comp.get_stack(), vec!["7", "0", "0", "8"]);
    assert!(matches!(comp.c_store_b("sb"), Ok(Step::Next)));
    assert_eq!(comp.mem_b, "8");
    comp.stack.clear();
    assert!(matches!(comp.c_store_b("sb"), Err(Fault::StackUnderflow { needed: 1, .. })));
}

#[test]
fn memory_slots_as_commands() {
    let mut comp = Interpreter::new();
    comp.build_native("sa", Command::Save { slot: Slot::A });
    comp.build_native("_a", Command::Recall { slot: Slot::A });
    comp.ops = tokens("5 sa 1 _a _a");
    assert!(matches!(comp.process_ops(), Halt::Finished));
    assert_eq!(comp.get_stack(), vec!["1", "5", "5"]);
}

#[test]
fn colours_are_taken_from_the_stack() {
    let mut comp = finished("9 255 128 0");
    assert_eq!(comp.c_rgb("rgb").unwrap(), Color { r: 255, g: 128, b: 0, bold: false });
    assert_eq!(comp.get_stack(), vec!["9"]);
    let mut comp = finished("ff 80 0");
    assert_eq!(comp.c_rgbh("rgbh").unwrap(), Color { r: 255, g: 128, b: 0, bold: false });
    let mut comp = finished("1 2 256");
    assert!(matches!(comp.c_rgb("rgb"), Err(Fault::BadValue { reading: Reading::Byte, .. })));
    assert_eq!(comp.get_stack(), vec!["1", "2"]);
    let mut comp = finished("1 q 3");
    match comp.c_rgbh("rgbh") {
        Err(Fault::BadValue { value, reading }) => {
            assert_eq!(value, "q");
            assert_eq!(reading, Reading::HexByte);
        }
        other => panic!("{:?}", other),
    }
    assert_eq!(comp.get_stack(), vec!["1"]);
    let mut comp = finished("1 2");
    assert!(matches!(comp.c_rgb("rgb"), Err(Fault::StackUnderflow { needed: 3, .. })));
}

#[test]
fn colours_are_averaged_by_component() {
    let mut comp = finished("ff0000 0000ff");
    assert_eq!(comp.c_rgb_avg("rgb_avg").unwrap(), Color { r: 127, g: 0, b: 127, bold: false });
    assert!(comp.get_stack().is_empty());
    let mut comp = finished("102030 304051");
    assert_eq!(comp.c_rgb_avg("rgb_avg").unwrap(), Color { r: 32, g: 48, b: 64, bold: false });
    let mut comp = finished("ff000 0000ff");
    match comp.c_rgb_avg("rgb_avg") {
        Err(Fault::BadArgument { command, argument }) => {
            assert_eq!(command, "rgb_avg");
            assert_eq!(argument, "ff000");
        }
        other => panic!("{:?}", other),
    }
    let mut comp = finished("ff0000 0000gg");
    assert!(matches!(comp.c_rgb_avg("rgb_avg"), Err(Fault::BadArgument { .. })));
    let mut comp = finished("ff0000");
    assert!(matches!(comp.c_rgb_avg("rgb_avg"), Err(Fault::StackUnderflow { needed: 2, .. })));
}

#[test]
fn theme_colours() {
    let theme = Theme::new();
    assert_eq!(theme.blue_smurf, Color { r: 0, g: 128, b: 255, bold: false });
    assert_eq!(theme.blue_coffee_bold, Color { r: 0, g: 192, b: 255, bold: true });
    assert_eq!(theme.red_bold, Color { r: 241, g: 95, b: 73, bold: true });
    assert_eq!(theme.white_bold, Color { r: 255, g: 255, b: 255, bold: true });
    assert_eq!(theme.grey_mouse, Color { r: 115, g: 115, b: 115, bold: false });
}

#[test]
fn file_name_is_what_follows_the_last_slash() {
    assert_eq!(file_name("/home/user/comp.toml"), "comp.toml");
    assert_eq!(file_name("a/b"), "b");
    assert_eq!(file_name("/x"), "x");
    assert_eq!(file_name("comp.toml"), "");
    assert_eq!(file_name("dir/"), "");
    assert_eq!(file_name(""), "");
    assert_eq!(file_name("\u{e9}t\u{e9}/\u{e9}"), "\u{e9}");
}

#[test]
fn peek_leaves_and_print_takes_the_top_value() {
    let mut comp = finished("1 2");
    assert_eq!(comp.c_peek("peek").unwrap(), "2");
    assert_eq!(comp.get_stack(), vec!["1", "2"]);
    assert_eq!(comp.c_print("print").unwrap(), "2");
    assert_eq!(comp.get_stack(), vec!["1"]);
    assert_eq!(comp.c_print("print").unwrap(), "1");
    assert!(matches!(comp.c_print("print"), Err(Fault::StackUnderflow { needed: 1, .. })));
    assert!(matches!(comp.c_peek("peek"), Err(Fault::StackUnderflow { needed: 1, .. })));
}

#[test]
fn conversions_invert_each_other() {
    for n in ["0", "1", "255", "4096", "9223372036854775807"] {
        assert_eq!(finished(&format!("{} dec_hex hex_dec", n)).get_stack(), vec![n]);
        assert_eq!(finished(&format!("{} dec_bin bin_dec", n)).get_stack(), vec![n]);
    }
    assert_eq!(finished("+007 dec_hex hex_dec").get_stack(), vec!["7"]);
    assert!(matches!(
        fault_of("9223372036854775808 dec_hex hex_dec"),
        Fault::BadValue { reading: Reading::Hex, .. }
    ));
}

#[test]
fn written_numbers_are_read_back() {
    for v in [0i64, 1, -1, 10, -10, 1234567890, i64::MAX, i64::MIN] {
        assert_eq!(parse_i64(&i64_to_decimal(v)), Some(v));
    }
}
