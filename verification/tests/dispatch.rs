use calculator::arith::divide;
use calculator::dispatch::{evaluate, run, Operation, Outcome};
use calculator::error::CalcError;
use calculator::report::{counting_line, integer_string, report_line};

fn two_decimals(outcome: &Outcome) -> String {
    match outcome {
        Outcome::Quotient(q) => format!("{:.2}", q.dividend() as f32 / q.divisor() as f32),
        _ => String::new(),
    }
}

#[test]
fn codes_select_operations() {
    assert_eq!(Operation::from_code(1), Operation::Add);
    assert_eq!(Operation::from_code(2), Operation::Subtract);
    assert_eq!(Operation::from_code(3), Operation::Multiply);
    assert_eq!(Operation::from_code(4), Operation::Divide);
    assert_eq!(Operation::from_code(0), Operation::Unrecognized);
    assert_eq!(Operation::from_code(5), Operation::Unrecognized);
    assert_eq!(Operation::from_code(9), Operation::Unrecognized);
    assert_eq!(Operation::from_code(-1), Operation::Unrecognized);
    assert_eq!(Operation::from_code(-4), Operation::Unrecognized);
    assert_eq!(Operation::from_code(i128::MAX), Operation::Unrecognized);
    assert_eq!(Operation::from_code(i128::MIN), Operation::Unrecognized);
}

#[test]
fn apply_each_operation() {
    assert_eq!(Operation::Add.apply(3, 4), Ok(Outcome::Integer(7)));
    assert_eq!(Operation::Subtract.apply(3, 4), Ok(Outcome::Integer(-1)));
    assert_eq!(Operation::Multiply.apply(3, 4), Ok(Outcome::Integer(12)));
    assert_eq!(Operation::Divide.apply(3, 4), Ok(Outcome::Quotient(divide(3, 4).unwrap())));
    assert_eq!(Operation::Divide.apply(3, 0), Err(CalcError::DivisionByZero));
    assert_eq!(Operation::Unrecognized.apply(3, 4), Ok(Outcome::InvalidChoice));
    assert_eq!(Operation::Unrecognized.apply(3, 0), Ok(Outcome::InvalidChoice));
}

#[test]
fn evaluate_by_code() {
    assert_eq!(evaluate(3, 4, 1), Ok(Outcome::Integer(7)));
    assert_eq!(evaluate(3, 4, 2), Ok(Outcome::Integer(-1)));
    assert_eq!(evaluate(3, 4, 3), Ok(Outcome::Integer(12)));
    assert_eq!(evaluate(i32::MAX, 1, 1), Ok(Outcome::Integer(i32::MIN)));
    assert_eq!(evaluate(5, 0, 4), Err(CalcError::DivisionByZero));
    assert_eq!(evaluate(5, 0, 1), Ok(Outcome::Integer(5)));
    assert_eq!(evaluate(5, 0, 7), Ok(Outcome::InvalidChoice));
    match evaluate(10, 4, 4) {
        Ok(Outcome::Quotient(q)) => {
            assert_eq!(q.dividend(), 10);
            assert_eq!(q.divisor(), 4);
        }
        other => panic!("unexpected outcome {:?}", other),
    }
}

#[test]
fn session_adds_two_numbers() {
    let outcome = run("3", "4", "1").unwrap();
    assert_eq!(outcome, Outcome::Integer(7));
    assert_eq!(report_line(&outcome, &two_decimals(&outcome)), "Result: 7");
}

#[test]
fn session_divides_two_numbers() {
    let outcome = run("10", "4", "4").unwrap();
    assert_eq!(outcome, Outcome::Quotient(divide(10, 4).unwrap()));
    assert_eq!(report_line(&outcome, &two_decimals(&outcome)), "Result: 2.50");
}

#[test]
fn session_stops_on_a_zero_divisor() {
    assert_eq!(run("5", "0", "4"), Err(CalcError::DivisionByZero));
    assert_eq!(run("5", "0", "4").unwrap_err().message(), "Error: Division by zero!");
}

#[test]
fn session_with_an_invalid_choice() {
    let outcome = run("1", "2", "9").unwrap();
    assert_eq!(outcome, Outcome::InvalidChoice);
    assert_eq!(report_line(&outcome, &two_decimals(&outcome)), "Invalid choice!");
    assert_eq!(counting_line(), "1 2 3 4 5");
}

#[test]
fn session_stops_on_an_unparsable_operand() {
    assert_eq!(run("abc", "2", "1"), Err(CalcError::Parse));
}

#[test]
fn run_reads_lines_as_they_come_from_the_console() {
    assert_eq!(run("3\n", "4\n", "1\n"), Ok(Outcome::Integer(7)));
    assert_eq!(run(" 6\r\n", "\t7\r\n", "3\r\n"), Ok(Outcome::Integer(42)));
    assert_eq!(run("8\n", "10\n", "2\n"), Ok(Outcome::Integer(-2)));
}

#[test]
fn run_fails_on_any_unparsable_line() {
    assert_eq!(run("1", "x", "1"), Err(CalcError::Parse));
    assert_eq!(run("1", "2", "x"), Err(CalcError::Parse));
    assert_eq!(run("1", "2", "--1"), Err(CalcError::Parse));
    assert_eq!(run("1", "2", ""), Err(CalcError::Parse));
    assert_eq!(run("2147483648", "2", "1"), Err(CalcError::Parse));
}

#[test]
fn run_sends_every_other_choice_to_the_invalid_branch() {
    assert_eq!(run("1", "2", "-1"), Ok(Outcome::InvalidChoice));
    assert_eq!(run("1", "2", "-4"), Ok(Outcome::InvalidChoice));
    assert_eq!(run("1", "2", "0"), Ok(Outcome::InvalidChoice));
    assert_eq!(run("1", "2", "5"), Ok(Outcome::InvalidChoice));
    assert_eq!(run("1", "2", "18446744073709551615"), Ok(Outcome::InvalidChoice));
    assert_eq!(run("1", "2", "-9223372036854775809"), Ok(Outcome::InvalidChoice));
    assert_eq!(run("1", "0", "-1"), Ok(Outcome::InvalidChoice));
    let outcome = run("1", "2", "-1").unwrap();
    assert_eq!(report_line(&outcome, ""), "Invalid choice!");
}

#[test]
fn run_takes_a_signed_choice() {
    assert_eq!(run("3", "4", "+1"), Ok(Outcome::Integer(7)));
    assert_eq!(run("3", "4", "003"), Ok(Outcome::Integer(12)));
    assert_eq!(run("3", "4", "-0"), Ok(Outcome::InvalidChoice));
}

#[test]
fn run_parse_failure_comes_before_division_by_zero() {
    assert_eq!(run("x", "0", "4"), Err(CalcError::Parse));
    assert_eq!(run("5", "0", "four"), Err(CalcError::Parse));
}

#[test]
fn run_zero_divisor_matters_to_division_only() {
    assert_eq!(run("5", "0", "1"), Ok(Outcome::Integer(5)));
    assert_eq!(run("5", "0", "3"), Ok(Outcome::Integer(0)));
    assert_eq!(run("5", "0", "9"), Ok(Outcome::InvalidChoice));
}

#[test]
fn integer_string_exact_values() {
    assert_eq!(integer_string(0), "0");
    assert_eq!(integer_string(7), "7");
    assert_eq!(integer_string(-7), "-7");
    assert_eq!(integer_string(10), "10");
    assert_eq!(integer_string(1200), "1200");
    assert_eq!(integer_string(i32::MAX), "2147483647");
    assert_eq!(integer_string(i32::MIN), "-2147483648");
}

#[test]
fn integer_string_agrees_with_the_standard_formatter() {
    for n in [0, 1, -1, 9, 10, 99, 100, -101, 65_536, 1_000_000_007, i32::MAX, i32::MIN] {
        assert_eq!(integer_string(n), format!("{}", n));
    }
}

#[test]
fn report_line_of_each_outcome() {
    assert_eq!(report_line(&Outcome::Integer(-12), ""), "Result: -12");
    assert_eq!(report_line(&Outcome::Integer(12), "ignored"), "Result: 12");
    assert_eq!(report_line(&Outcome::InvalidChoice, "ignored"), "Invalid choice!");
    let outcome = Outcome::Quotient(divide(1, 3).unwrap());
    assert_eq!(report_line(&outcome, "0.33"), "Result: 0.33");
    assert_eq!(report_line(&outcome, &two_decimals(&outcome)), "Result: 0.33");
}

#[test]
fn counting_line_exact_value() {
    assert_eq!(counting_line(), "1 2 3 4 5");
}
