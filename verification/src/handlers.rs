//! The three handlers of the fixture: two that echo their input and one that
//! writes a record's required fields out as text.

use crate::records::{CallError, FloatText, HandlerResult, Lists, Maps, Optional, Required, Tests};
use crate::text::{
    append_line, decimal, decimal_text, line, signed_decimal, signed_decimal_text, truth,
    truth_text,
};
use vstd::prelude::*;
use vstd::string::*;

verus! {

/// The text that `test_decode` writes for a required record: an opening
/// brace on a line of its own, then one line each for the boolean, the four
/// unsigned and the four signed integers, the two floats as they were
/// rendered, and the string twice; a closing brace ends it.
pub open spec fn decode_report(required: Required, floats: FloatText) -> Seq<char> {
    seq!['{', '\n']
        + line(truth(required.bool_value))
        + line(decimal(required.u8_value as nat))
        + line(decimal(required.u16_value as nat))
        + line(decimal(required.u32_value as nat))
        + line(decimal(required.u64_value as nat))
        + line(signed_decimal(required.s8_value as int))
        + line(signed_decimal(required.s16_value as int))
        + line(signed_decimal(required.s32_value as int))
        + line(signed_decimal(required.s64_value as int))
        + line(floats.f32_value@)
        + line(floats.f64_value@)
        + line(required.string_value@)
        + line(required.string_value@)
        + seq!['}']
}

/// Puts the four records into one bundle, each unchanged.
pub fn test_function(required: Required, optional: Optional, maps: Maps, lists: Lists) -> (r:
    HandlerResult<Tests>)
    ensures
        r == Ok::<Tests, CallError>((Tests { required, optional, maps, lists })),
{
    Ok(Tests { required, optional, maps, lists })
}

/// Hands the bundle back as it came.
pub fn test_unary(tests: Tests) -> (r: HandlerResult<Tests>)
    ensures
        r == Ok::<Tests, CallError>(tests),
{
    Ok(tests)
}

/// Writes the bundle's required fields out as text. Every other field of the
/// bundle is ignored.
pub fn test_decode(tests: Tests, floats: FloatText) -> (r: HandlerResult<String>)
    ensures
        r is Ok,
        r->Ok_0@ == decode_report(tests.required, floats),
{
    let required = &tests.required;
    let mut out = String::new();
    proof {
        reveal_strlit("{\n");
        assert("{\n"@ =~= seq!['{', '\n']);
        reveal_strlit("}");
        assert("}"@ =~= seq!['}']);
    }
    out.append("{\n");
    assert(out@ =~= seq!['{', '\n']);
    append_line(&mut out, truth_text(required.bool_value));
    append_line(&mut out, decimal_text(required.u8_value as u64).as_str());
    append_line(&mut out, decimal_text(required.u16_value as u64).as_str());
    append_line(&mut out, decimal_text(required.u32_value as u64).as_str());
    append_line(&mut out, decimal_text(required.u64_value).as_str());
    append_line(&mut out, signed_decimal_text(required.s8_value as i64).as_str());
    append_line(&mut out, signed_decimal_text(required.s16_value as i64).as_str());
    append_line(&mut out, signed_decimal_text(required.s32_value as i64).as_str());
    append_line(&mut out, signed_decimal_text(required.s64_value).as_str());
    append_line(&mut out, floats.f32_value.as_str());
    append_line(&mut out, floats.f64_value.as_str());
    append_line(&mut out, required.string_value.as_str());
    append_line(&mut out, required.string_value.as_str());
    out.append("}");
    Ok(out)
}

} // verus!
