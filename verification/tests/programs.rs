//! Whole programs, run with a host that supplies the commands on real
//! numbers.
use comp::interp::{Halt, Interpreter};

fn pop_f64(comp: &mut Interpreter) -> f64 {
    comp.pop_stack_string().parse::<f64>().unwrap()
}

fn unary(comp: &mut Interpreter, op: &str, f: fn(f64) -> f64) {
    comp.check_stack_error(1, op).unwrap();
    let a = pop_f64(comp);
    comp.push(f(a).to_string());
}

fn binary(comp: &mut Interpreter, op: &str, f: fn(f64, f64) -> f64) {
    comp.check_stack_error(2, op).unwrap();
    let b = pop_f64(comp);
    let a = pop_f64(comp);
    comp.push(f(a, b).to_string());
}

fn reduce(comp: &mut Interpreter, op: &str, f: fn(f64, f64) -> f64) {
    while comp.stack.len() > 1 {
        binary(comp, op, f);
    }
}

fn principal_roots(comp: &mut Interpreter, op: &str) {
    comp.check_stack_error(3, op).unwrap();
    let c = pop_f64(comp);
    let b = pop_f64(comp);
    let a = pop_f64(comp);
    let disc = b * b - 4. * a * c;
    if disc < 0. {
        comp.push((-b / (2. * a)).to_string());
        comp.push(((-disc).sqrt() / (2. * a)).to_string());
        comp.push((-b / (2. * a)).to_string());
        comp.push((-1. * (-disc).sqrt() / (2. * a)).to_string());
    } else {
        comp.push(((-b + disc.sqrt()) / (2. * a)).to_string());
        comp.push(0.0.to_string());
        comp.push(((-b - disc.sqrt()) / (2. * a)).to_string());
        comp.push(0.0.to_string());
    }
}

fn extreme(comp: &mut Interpreter, op: &str, needed: usize, start: f64, f: fn(f64, f64) -> f64) {
    comp.check_stack_error(needed, op).unwrap();
    let mut m = start;
    while !comp.stack.is_empty() {
        m = f(m, pop_f64(comp));
    }
    comp.push(m.to_string());
}

fn min_and_max(comp: &mut Interpreter, op: &str) {
    comp.check_stack_error(2, op).unwrap();
    let mut max = f64::MIN;
    let mut min = f64::MAX;
    while !comp.stack.is_empty() {
        let a = pop_f64(comp);
        if a > max {
            max = a;
        }
        if a < min {
            min = a;
        }
    }
    comp.push(min.to_string());
    comp.push(max.to_string());
}

fn average_all(comp: &mut Interpreter, op: &str) {
    comp.check_stack_error(2, op).unwrap();
    let len = comp.stack.len();
    let mut sum = 0.;
    for _ in 0..len {
        sum += pop_f64(comp);
    }
    comp.push((sum / len as f64).to_string());
}

fn divisors(comp: &mut Interpreter, op: &str) {
    comp.check_stack_error(1, op).unwrap();
    let a = comp.pop_stack_i64().unwrap().abs();
    let mut found: Vec<i64> = vec![1];
    let sq = (a as f64).sqrt() as i64;
    for n in 2..=sq {
        if a % n == 0 {
            found.push(n);
            if n != sq {
                found.push(a / n);
            }
        }
    }
    found.sort();
    for n in found {
        comp.push(n.to_string());
    }
}

fn random(comp: &mut Interpreter, op: &str) {
    comp.check_stack_error(1, op).unwrap();
    let a = comp.pop_stack_u64().unwrap();
    comp.push(((a as f64 * rand::random::<f64>()) as u64).to_string());
}

fn sign(a: f64) -> f64 {
    if a < 0. {
        -1.
    } else if a > 0. {
        1.
    } else {
        0.
    }
}

fn host(comp: &mut Interpreter, op: &str) {
    match op {
        "+" => binary(comp, op, |a, b| a + b),
        "-" => binary(comp, op, |a, b| a - b),
        "x" => binary(comp, op, |a, b| a * b),
        "/" => binary(comp, op, |a, b| a / b),
        "+_" | "sum" => reduce(comp, op, |a, b| a + b),
        "x_" | "prod" => reduce(comp, op, |a, b| a * b),
        "chs" => unary(comp, op, |a| -a),
        "abs" => unary(comp, op, |a| a.abs()),
        "round" | "int" => unary(comp, op, |a| a.round()),
        "floor" => unary(comp, op, |a| a.floor()),
        "ceil" => unary(comp, op, |a| a.ceil()),
        "inv" => unary(comp, op, |a| 1. / a),
        "sqrt" => unary(comp, op, |a| a.sqrt()),
        "nroot" => binary(comp, op, |a, b| a.powf(1. / b)),
        "proot" => principal_roots(comp, op),
        "^" | "exp" => binary(comp, op, |a, b| a.powf(b)),
        "%" | "mod" => binary(comp, op, |a, b| a % b),
        "pi" => comp.push(std::f64::consts::PI.to_string()),
        "e" => comp.push(std::f64::consts::E.to_string()),
        "deg_rad" => unary(comp, op, |a| a.to_radians()),
        "rad_deg" => unary(comp, op, |a| a.to_degrees()),
        "sin" => unary(comp, op, |a| a.sin()),
        "asin" => unary(comp, op, |a| a.asin()),
        "cos" => unary(comp, op, |a| a.cos()),
        "acos" => unary(comp, op, |a| a.acos()),
        "tan" => unary(comp, op, |a| a.tan()),
        "atan" => unary(comp, op, |a| a.atan()),
        "log" | "log10" => unary(comp, op, |a| a.log10()),
        "log2" => unary(comp, op, |a| a.log2()),
        "logn" => binary(comp, op, |a, b| a.log(b)),
        "ln" | "loge" => unary(comp, op, |a| a.ln()),
        "rand" => random(comp, op),
        "max" => binary(comp, op, |a, b| a.max(b)),
        "min" => binary(comp, op, |a, b| a.min(b)),
        "max_all" | "max_" => extreme(comp, op, 2, f64::MIN, |a, b| a.max(b)),
        "min_all" | "min_" => extreme(comp, op, 1, f64::MAX, |a, b| a.min(b)),
        "minmax" => min_and_max(comp, op),
        "avg" => binary(comp, op, |a, b| (a + b) / 2.),
        "avg_all" | "avg_" => average_all(comp, op),
        "sgn" => unary(comp, op, sign),
        "divs" => divisors(comp, op),
        "c_f" | "C_F" => unary(comp, op, |a| (a * 9. / 5.) + 32.),
        "f_c" | "F_C" => unary(comp, op, |a| (a - 32.) * 5. / 9.),
        "ft_m" => unary(comp, op, |a| a / 3.281),
        "m_ft" => unary(comp, op, |a| a * 3.281),
        _ => panic!("no host command {}", op),
    }
}

fn run(comp: &mut Interpreter) {
    loop {
        match comp.process_ops() {
            Halt::Finished => return,
            Halt::Limit => {}
            Halt::Compare { a, b } => {
                let b = b.parse::<f64>().unwrap();
                let a = a.parse::<f64>().unwrap();
                comp.branch(a == b).unwrap();
            }
            Halt::Host { command } => host(comp, &command),
            Halt::Fault { fault } => panic!("{:?}", fault),
        }
    }
}

fn stack_after(program: &str) -> Vec<String> {
    let mut comp = Interpreter::new();
    for t in program.split_whitespace() {
        comp.ops.push(t.to_string());
    }
    run(&mut comp);
    comp.get_stack()
}

#[test]
fn test_interpreter() {
    let mut comp = Interpreter::new();

    comp.ops.push(8.to_string());
    comp.ops.push("io".to_string());
    comp.ops.push("prod".to_string());

    run(&mut comp);

    assert!(comp.pop_stack_i64().unwrap() == 40320);
}

#[test]
fn comp_test_core() {
    let mut comp = Interpreter::new();

    comp.ops.push(1.to_string());
    comp.ops.push(2.to_string());
    comp.ops.push(3.to_string());
    comp.ops.push(4.to_string());

    comp.ops.push("rot".to_string());
    comp.ops.push("rot".to_string());
    comp.ops.push("roll".to_string());
    comp.ops.push("roll".to_string());

    comp.ops.push("deg_rad".to_string());
    comp.ops.push("cos".to_string());
    comp.ops.push("acos".to_string());
    comp.ops.push("sin".to_string());
    comp.ops.push("asin".to_string());
    comp.ops.push("tan".to_string());
    comp.ops.push("atan".to_string());
    comp.ops.push("rad_deg".to_string());
    comp.ops.push("round".to_string());
    comp.ops.push("roll".to_string());
    comp.ops.push("roll".to_string());
    comp.ops.push("roll".to_string());
    comp.ops.push("roll".to_string());
    comp.ops.push("dup".to_string());
    comp.ops.push("drop".to_string());
    comp.ops.push("swap".to_string());
    comp.ops.push("swap".to_string());
    comp.ops.push("+".to_string());
    comp.ops.push("-".to_string());
    comp.ops.push("/".to_string());

    comp.ops.push(10.to_string());
    comp.ops.push("log2".to_string());
    comp.ops.push(10.to_string());
    comp.ops.push(2.to_string());
    comp.ops.push("logn".to_string());
    comp.ops.push("-".to_string());
    comp.ops.push("round".to_string());
    comp.ops.push("+".to_string());

    run(&mut comp);

    assert!(pop_f64(&mut comp) == -0.2);
}

#[test]
fn comp_test_support() {
    assert!(Interpreter::gcd(55, 10) == 5);
    assert!(Interpreter::factorial(10) == 3628800);
}

#[test]
fn comp_test_roots() {
    let mut comp = Interpreter::new();

    comp.ops.push(2.to_string());
    comp.ops.push("dup".to_string());
    comp.ops.push("sqrt".to_string());
    comp.ops.push("swap".to_string());
    comp.ops.push(32.to_string());
    comp.ops.push("^".to_string());
    comp.ops.push((32. * 2.).to_string());
    comp.ops.push("nroot".to_string());

    run(&mut comp);

    assert!(pop_f64(&mut comp) == pop_f64(&mut comp));

    comp.ops.push(1.to_string());
    comp.ops.push((-2).to_string());
    comp.ops.push("chs".to_string());
    comp.ops.push("chs".to_string());
    comp.ops.push("pi".to_string());
    comp.ops.push("x".to_string());
    comp.ops.push("pi".to_string());
    comp.ops.push(2.to_string());
    comp.ops.push("^".to_string());
    comp.ops.push(1.to_string());
    comp.ops.push("+".to_string());
    comp.ops.push("proot".to_string());
    comp.ops.push("sum".to_string());
    comp.ops.push(2.to_string());
    comp.ops.push("/".to_string());
    comp.ops.push("pi".to_string());

    run(&mut comp);

    assert!(pop_f64(&mut comp) == pop_f64(&mut comp));
}

#[test]
#[should_panic]
fn comp_test_cls() {
    let mut comp = Interpreter::new();

    comp.ops.push(1.to_string());
    comp.ops.push(2.to_string());
    comp.ops.push(3.to_string());
    comp.ops.push(4.to_string());
    comp.ops.push(1.to_string());
    comp.ops.push(2.to_string());
    comp.ops.push(3.to_string());
    comp.ops.push(4.to_string());
    comp.ops.push(1.to_string());
    comp.ops.push(2.to_string());
    comp.ops.push(3.to_string());
    comp.ops.push(4.to_string());
    comp.ops.push("cls".to_string());

    run(&mut comp);

    assert!(pop_f64(&mut comp) == 0.);
}

#[test]
fn comp_test_mem() {
    let mut comp = Interpreter::new();

    comp.ops.push(1.to_string());
    comp.ops.push(2.to_string());
    comp.ops.push(3.to_string());
    comp.ops.push(4.to_string());
    comp.ops.push(1.to_string());
    comp.ops.push(2.to_string());
    comp.ops.push(3.to_string());
    comp.ops.push(4.to_string());
    comp.ops.push(1.to_string());
    comp.ops.push(2.to_string());
    comp.ops.push(3.to_string());
    comp.ops.push(4.to_string());
    comp.ops.push("chs".to_string());
    comp.ops.push("abs".to_string());
    comp.ops.push("inv".to_string());
    comp.ops.push("inv".to_string());
    comp.ops.push("pi".to_string());
    comp.ops.push("e".to_string());
    comp.ops.push(0.to_string());
    comp.ops.push("b".to_string());
    comp.ops.push("store".to_string());
    comp.ops.push("a".to_string());
    comp.ops.push("store".to_string());
    comp.ops.push("c".to_string());
    comp.ops.push("store".to_string());
    comp.ops.push("cls".to_string());
    comp.ops.push("b".to_string());
    comp.ops.push("c".to_string());
    comp.ops.push("+".to_string());
    comp.ops.push("a".to_string());
    comp.ops.push("+".to_string());

    run(&mut comp);

    assert!(pop_f64(&mut comp) == std::f64::consts::PI + std::f64::consts::E);
}

#[test]
fn comp_test_cmp() {
    let mut comp = Interpreter::new();

    comp.ops.push(10.to_string());
    comp.ops.push("log".to_string());
    comp.ops.push("e".to_string());
    comp.ops.push("ln".to_string());
    comp.ops.push(105.to_string());
    comp.ops.push(2.to_string());
    comp.ops.push("%".to_string());
    comp.ops.push(3049.to_string());
    comp.ops.push(1009.to_string());
    comp.ops.push("gcd".to_string());
    comp.ops.push("prod".to_string());

    run(&mut comp);

    assert!(pop_f64(&mut comp) == 1.);

    comp.ops.push(20.to_string());
    comp.ops.push("!".to_string());

    run(&mut comp);

    assert!(pop_f64(&mut comp) == 2432902008176640000.);

    comp.ops.push(20.to_string());
    comp.ops.push("tng".to_string());

    run(&mut comp);

    assert!(comp.pop_stack_i64().unwrap() == 210);
}

#[test]
fn comp_test_rand() {
    let mut comp = Interpreter::new();

    comp.ops.push(2.to_string());
    comp.ops.push("rand".to_string());
    comp.ops.push(2.to_string());
    comp.ops.push("rand".to_string());
    comp.ops.push(2.to_string());
    comp.ops.push("rand".to_string());
    comp.ops.push(2.to_string());
    comp.ops.push("rand".to_string());
    comp.ops.push(2.to_string());
    comp.ops.push("rand".to_string());
    comp.ops.push(2.to_string());
    comp.ops.push("rand".to_string());
    comp.ops.push(2.to_string());
    comp.ops.push("rand".to_string());
    comp.ops.push(2.to_string());
    comp.ops.push("rand".to_string());
    comp.ops.push(2.to_string());
    comp.ops.push("rand".to_string());
    comp.ops.push(2.to_string());
    comp.ops.push("rand".to_string());
    comp.ops.push("max".to_string());

    run(&mut comp);

    assert!(pop_f64(&mut comp) <= 1.);
}

#[test]
fn comp_test_minmax() {
    let mut comp = Interpreter::new();

    comp.ops.push(1.to_string());
    comp.ops.push(2.to_string());
    comp.ops.push("min".to_string());

    run(&mut comp);

    assert!(pop_f64(&mut comp) == 1.);


    comp.ops.push(1.to_string());
    comp.ops.push(2.to_string());
    comp.ops.push("max".to_string());

    run(&mut comp);

    assert!(pop_f64(&mut comp) == 2.);


    comp.ops.push(1.to_string());
    comp.ops.push(2.to_string());
    comp.ops.push(3.to_string());
    comp.ops.push(4.to_string());
    comp.ops.push("min_all".to_string());

    run(&mut comp);

    assert!(pop_f64(&mut comp) == 1.);


    comp.ops.push(1.to_string());
    comp.ops.push(2.to_string());
    comp.ops.push(3.to_string());
    comp.ops.push(4.to_string());
    comp.ops.push("max_all".to_string());

    run(&mut comp);

    assert!(pop_f64(&mut comp) == 4.);


    comp.ops.push((-1).to_string());
    comp.ops.push((-5).to_string());
    comp.ops.push((-10).to_string());
    comp.ops.push("minmax".to_string());

    run(&mut comp);

    assert!(pop_f64(&mut comp) == -1.);
    assert!(pop_f64(&mut comp) == -10.);
}

#[test]
fn comp_test_conv() {
    let mut comp = Interpreter::new();

    comp.ops.push(100.to_string());
    comp.ops.push("c_f".to_string());
    comp.ops.push("f_c".to_string());
    comp.ops.push("dec_hex".to_string());
    comp.ops.push("hex_bin".to_string());
    comp.ops.push("bin_hex".to_string());
    comp.ops.push("hex_dec".to_string());
    comp.ops.push("dec_bin".to_string());
    comp.ops.push("bin_dec".to_string());
    comp.ops.push("ft_m".to_string());
    comp.ops.push("m_ft".to_string());

    run(&mut comp);

    assert!(pop_f64(&mut comp) == 100.);
}

#[test]
fn comp_test_avg() {
    let mut comp = Interpreter::new();

    comp.ops.push((-2).to_string());
    comp.ops.push(2.to_string());
    comp.ops.push("avg".to_string());

    run(&mut comp);

    assert!(pop_f64(&mut comp) == 0.);


    comp.ops.push(1.to_string());
    comp.ops.push(2.to_string());
    comp.ops.push(3.to_string());
    comp.ops.push(4.to_string());
    comp.ops.push("avg_all".to_string());

    run(&mut comp);

    assert!(pop_f64(&mut comp) == 2.5);
}

#[test]
fn test_misc() {
    let mut comp = Interpreter::new();

    comp.ops.push(10.1.to_string());
    comp.ops.push("round".to_string());
    comp.ops.push(10.1.to_string());
    comp.ops.push("floor".to_string());
    comp.ops.push(10.1.to_string());
    comp.ops.push("ceil".to_string());

    run(&mut comp);

    assert!(comp.pop_stack_u64().unwrap() == 11);
    assert!(comp.pop_stack_u64().unwrap() == 10);
    assert!(comp.pop_stack_u64().unwrap() == 10);


    comp.ops.push((-99).to_string());
    comp.ops.push("sgn".to_string());
    comp.ops.push(109.to_string());
    comp.ops.push("sgn".to_string());
    comp.ops.push(0.to_string());
    comp.ops.push("sgn".to_string());
    comp.ops.push("sum".to_string());

    run(&mut comp);

    assert!(comp.pop_stack_i64().unwrap() == 0);


    comp.ops.push("cls".to_string());
    comp.ops.push(28.to_string());
    comp.ops.push("divs".to_string());
    comp.ops.push("sum".to_string());

    run(&mut comp);

    assert!(comp.pop_stack_i64().unwrap() == 28);
}

#[test]
fn test_stack() {
    let mut comp = Interpreter::new();

    comp.ops.push(1.to_string());
    comp.ops.push(2.to_string());
    comp.ops.push(3.to_string());
    comp.ops.push(4.to_string());
    comp.ops.push(5.to_string());
    comp.ops.push(3.to_string());
    comp.ops.push("rotn".to_string());

    run(&mut comp);

    assert!(comp.pop_stack_i64().unwrap() == 3);


    comp.ops.push("cls".to_string());
    comp.ops.push(1.to_string());
    comp.ops.push(2.to_string());
    comp.ops.push(3.to_string());
    comp.ops.push(4.to_string());
    comp.ops.push(5.to_string());
    comp.ops.push(3.to_string());
    comp.ops.push("rolln".to_string());

    run(&mut comp);

    assert!(comp.pop_stack_i64().unwrap() == 2);


    comp.ops.push("cls".to_string());
    comp.ops.push(1.to_string());
    comp.ops.push(2.to_string());
    comp.ops.push(3.to_string());
    comp.ops.push(4.to_string());
    comp.ops.push(5.to_string());
    comp.ops.push("rev".to_string());

    run(&mut comp);

    assert!(comp.pop_stack_i64().unwrap() == 1);


    comp.ops.push("rev".to_string());

    run(&mut comp);

    assert!(comp.pop_stack_i64().unwrap() == 5);

}

#[test]
fn test_binary_ops() {
    let mut comp = Interpreter::new();

    comp.ops.push(10.to_string());
    comp.ops.push(6.to_string());
    comp.ops.push("and".to_string());

    run(&mut comp);

    assert!(comp.pop_stack_u64().unwrap() == 2);


    comp.ops.push(10.to_string());
    comp.ops.push(6.to_string());
    comp.ops.push("nand".to_string());
    comp.ops.push("not".to_string());

    run(&mut comp);

    assert!(comp.pop_stack_u64().unwrap() == 2);


    comp.ops.push(10.to_string());
    comp.ops.push(6.to_string());
    comp.ops.push("or".to_string());

    run(&mut comp);

    assert!(comp.pop_stack_u64().unwrap() == 14);


    comp.ops.push(10.to_string());
    comp.ops.push(6.to_string());
    comp.ops.push("nor".to_string());
    comp.ops.push("not".to_string());

    run(&mut comp);

    assert!(comp.pop_stack_u64().unwrap() == 14);


    comp.ops.push(10.to_string());
    comp.ops.push(6.to_string());
    comp.ops.push("xor".to_string());

    run(&mut comp);

    assert!(comp.pop_stack_u64().unwrap() == 12);


    comp.ops.push(341.to_string());
    comp.ops.push("ones".to_string());

    run(&mut comp);

    assert!(comp.pop_stack_u64().unwrap() == 5);

}

#[test]
fn sum_of_two_values() {
    assert_eq!(stack_after("3 4 +"), vec!["7"]);
}

#[test]
fn sum_of_two_squares() {
    assert_eq!(stack_after("3 dup x 4 dup x +"), vec!["25"]);
}

#[test]
fn conditional_takes_then_branch_on_equal_values() {
    assert_eq!(stack_after("5 5 ifeq 10 else 20 fi"), vec!["10"]);
}

#[test]
fn conditional_takes_else_branch_on_unequal_values() {
    assert_eq!(stack_after("5 6 ifeq 10 else 20 fi"), vec!["20"]);
}

#[test]
fn conditional_without_else_leaves_nothing_on_unequal_values() {
    assert_eq!(stack_after("5 6 ifeq 10 fi 7"), vec!["7"]);
    assert_eq!(stack_after("5 5 ifeq 10 fi 7"), vec!["10", "7"]);
}

#[test]
fn conditional_compares_values_as_numbers() {
    assert_eq!(stack_after("5 5.0 ifeq 10 else 20 fi"), vec!["10"]);
}

#[test]
fn named_function_squares() {
    assert_eq!(stack_after("( sq dup x ) 4 sq"), vec!["16"]);
}

#[test]
fn map_applies_lambda_to_each_value() {
    assert_eq!(stack_after("1 2 3 [ 1 + ] map"), vec!["2", "3", "4"]);
}

#[test]
fn fold_sums_the_stack() {
    assert_eq!(stack_after("1 2 3 4 [ + ] fold"), vec!["10"]);
}

#[test]
fn scan_keeps_running_sums() {
    assert_eq!(stack_after("1 2 3 [ + ] scan"), vec!["1", "3", "6"]);
}

#[test]
fn nested_conditional_is_consumed_with_its_branch() {
    assert_eq!(stack_after("1 1 ifeq 2 3 ifeq 4 fi 5 fi"), vec!["5"]);
    assert_eq!(stack_after("1 2 ifeq 2 3 ifeq 4 fi 5 fi 9"), vec!["9"]);
    assert_eq!(stack_after("1 1 ifeq 3 3 ifeq 4 else 6 fi 5 else 8 fi"), vec!["4", "5"]);
}

#[test]
fn nested_conditional_in_else_branch_is_consumed_with_it() {
    assert_eq!(stack_after("1 2 ifeq 7 else 3 3 ifeq 4 fi 5 fi 9"), vec!["4", "5", "9"]);
    assert_eq!(stack_after("1 1 ifeq 7 else 3 3 ifeq 4 fi 5 fi 9"), vec!["7", "9"]);
}

#[test]
fn comment_changes_nothing() {
    assert_eq!(
        stack_after("1 2 + { garbage { more garbage } still garbage } 3 +"),
        stack_after("1 2 + 3 +")
    );
    assert_eq!(stack_after("1 2 + { garbage { more garbage } still garbage } 3 +"), vec!["6"]);
}

#[test]
fn second_lambda_replaces_first() {
    assert_eq!(stack_after("[ 1 + ] [ 2 x ] 5 _"), vec!["10"]);
}

#[test]
fn memory_value_is_dispatched_again() {
    assert_eq!(stack_after("12 n store n n +"), vec!["24"]);
    let mut comp = Interpreter::new();
    comp.push("dup".to_string());
    for t in "twice store 4 twice".split_whitespace() {
        comp.ops.push(t.to_string());
    }
    run(&mut comp);
    assert_eq!(comp.get_stack(), vec!["4", "4"]);
}

#[test]
fn recursion_runs_until_its_conditional_ends_it() {
    assert_eq!(
        stack_after("( down dup 0 ifeq else 1 - down fi ) 3 down"),
        vec!["0"]
    );
}
