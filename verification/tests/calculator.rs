use sdlt_mcp::sdlt;
use sdlt_mcp::server::{CallOutcome, Calculator, PropertyInput};
use sdlt_mcp::text;

fn success_text(outcome: CallOutcome) -> String {
    match outcome {
        CallOutcome::Success(s) => s,
        CallOutcome::InvalidInput => panic!("expected a success result"),
    }
}

fn call(pounds: u64) -> String {
    let calc = Calculator::new();
    success_text(calc.calculate_sdlt(PropertyInput::Value(pounds * 100)))
}

#[test]
fn zero_value_owes_nothing() {
    assert_eq!(call(0), "SDLT for £0.00 is £0.00");
}

#[test]
fn value_at_first_edge_owes_nothing() {
    assert_eq!(call(125_000), "SDLT for £125000.00 is £0.00");
}

#[test]
fn value_at_second_edge() {
    assert_eq!(call(250_000), "SDLT for £250000.00 is £2500.00");
}

#[test]
fn value_in_third_band() {
    assert_eq!(call(500_000), "SDLT for £500000.00 is £15000.00");
}

#[test]
fn value_at_third_edge() {
    assert_eq!(call(925_000), "SDLT for £925000.00 is £36250.00");
}

#[test]
fn value_at_fourth_edge() {
    assert_eq!(call(1_500_000), "SDLT for £1500000.00 is £93750.00");
}

#[test]
fn value_in_top_band() {
    assert_eq!(call(2_000_000), "SDLT for £2000000.00 is £153750.00");
}

#[test]
fn missing_value_is_a_soft_failure() {
    let calc = Calculator::new();
    let text = success_text(calc.calculate_sdlt(PropertyInput::Missing));
    assert_eq!(text, "Property value is missing.");
}

#[test]
fn invalid_value_is_a_tool_error() {
    let calc = Calculator::new();
    let outcome = calc.calculate_sdlt(PropertyInput::Invalid);
    assert!(matches!(outcome, CallOutcome::InvalidInput));
}

#[test]
fn presentation_rounds_half_away_from_zero() {
    // £125,000.25: 25 pence in the 2% band owe 50 centipence, which rounds
    // up to a whole penny.
    let calc = Calculator::new();
    let text = success_text(calc.calculate_sdlt(PropertyInput::Value(12_500_025)));
    assert_eq!(text, "SDLT for £125000.25 is £0.01");
}

#[test]
fn tax_is_exact_in_centipence() {
    assert_eq!(sdlt::compute(0), 0);
    assert_eq!(sdlt::compute(12_500_000), 0);
    assert_eq!(sdlt::compute(12_500_001), 2);
    assert_eq!(sdlt::compute(25_000_000), 25_000_000);
    assert_eq!(sdlt::compute(92_500_000), 362_500_000);
    assert_eq!(sdlt::compute(150_000_000), 937_500_000);
    assert_eq!(sdlt::compute(200_000_000), 1_537_500_000);
}

#[test]
fn rounding_to_pence() {
    assert_eq!(sdlt::round_to_pence(0), 0);
    assert_eq!(sdlt::round_to_pence(49), 0);
    assert_eq!(sdlt::round_to_pence(50), 1);
    assert_eq!(sdlt::round_to_pence(149), 1);
    assert_eq!(sdlt::round_to_pence(150), 2);
}

#[test]
fn identical_calls_return_identical_bytes() {
    let calc = Calculator::new();
    let first = success_text(calc.calculate_sdlt(PropertyInput::Value(77_777_777)));
    let second = success_text(calc.calculate_sdlt(PropertyInput::Value(77_777_777)));
    assert_eq!(first, second);
}

#[test]
fn list_tools_advertises_one_descriptor() {
    let calc = Calculator::new();
    let tools = calc.list_tools();
    assert_eq!(tools.len(), 1);
    assert_eq!(tools[0].name, "calculate_sdlt");
    assert_eq!(tools[0].description, "Calculate UK SDLT - property tax");
    assert_eq!(
        tools[0].input_schema,
        "{\"type\":\"object\",\"properties\":{\"property_value\":{\"type\":\"number\"}},\"required\":[\"property_value\"]}"
    );
}

#[test]
fn get_info_advertises_tools_capability() {
    let calc = Calculator::new();
    let info = calc.get_info();
    assert_eq!(info.protocol_version, "2024-11-05");
    assert!(info.tools_enabled);
    assert_eq!(
        info.instructions,
        "This server provides a calculator tool to work out UK SDLT"
    );
}

#[test]
fn money_rendering() {
    assert_eq!(text::pence_to_money(0), "0.00");
    assert_eq!(text::pence_to_money(7), "0.07");
    assert_eq!(text::pence_to_money(70), "0.70");
    assert_eq!(text::pence_to_money(100), "1.00");
    assert_eq!(text::pence_to_money(123_456), "1234.56");
}

#[test]
fn decimal_rendering() {
    assert_eq!(text::u64_to_dec(0), "0");
    assert_eq!(text::u64_to_dec(9), "9");
    assert_eq!(text::u64_to_dec(10), "10");
    assert_eq!(text::u64_to_dec(1_234_567), "1234567");
}
