use vstd::prelude::*;
use vstd::string::StringExecFns;

verus! {

/// The engine's result code for success.
pub const S_OK: i32 = 0;

/// The engine's result code for success with nothing to report.
pub const S_FALSE: i32 = 1;

/// An error reported by the debugger engine.
#[derive(Debug)]
pub enum WinDbgError {
    UnknownError,
    /// What was being attempted, and the engine's result code.
    FfiError(&'static str, i32),
}

/// A result code reports failure when its severity bit is set.
pub open spec fn failed(res: i32) -> bool {
    res < 0
}

/// Accepts any result code that does not report failure.
pub fn check_succeeded(res: i32, context: &'static str) -> (r: Result<(), WinDbgError>)
    ensures
        r is Ok <==> !failed(res),
        r matches Err(e) ==> e == WinDbgError::FfiError(context, res),
{
    if res < 0 {
        Err(WinDbgError::FfiError(context, res))
    } else {
        Ok(())
    }
}

/// Accepts exactly the result code `S_OK`.
pub fn check_ok(res: i32, context: &'static str) -> (r: Result<(), WinDbgError>)
    ensures
        r is Ok <==> res == S_OK,
        r matches Err(e) ==> e == WinDbgError::FfiError(context, res),
{
    if res != S_OK {
        Err(WinDbgError::FfiError(context, res))
    } else {
        Ok(())
    }
}

/// Accepts the result codes of a callback dispatch that ran or timed out:
/// `S_OK` and `S_FALSE`.
pub fn check_dispatched(res: i32) -> (r: Result<(), WinDbgError>)
    ensures
        r is Ok <==> (res == S_OK || res == S_FALSE),
        r matches Err(e) ==> e == WinDbgError::FfiError(
            "Error occurred while dispatching callbacks",
            res,
        ),
{
    if res != S_OK && res != S_FALSE {
        Err(WinDbgError::FfiError("Error occurred while dispatching callbacks", res))
    } else {
        Ok(())
    }
}

/// The length of the text in a wide-character buffer: the position of the
/// first zero, or the whole buffer when it holds none.
pub fn wide_text_len(buf: &[u16]) -> (n: usize)
    ensures
        n <= buf@.len(),
        forall|j: int| 0 <= j < n ==> buf@[j] != 0,
        n < buf@.len() ==> buf@[n as int] == 0,
{
    let mut i: usize = 0;
    while i < buf.len()
        invariant
            i <= buf@.len(),
            forall|j: int| 0 <= j < i ==> buf@[j] != 0,
        decreases buf@.len() - i,
    {
        if buf[i] == 0 {
            return i;
        }
        i = i + 1;
    }
    i
}

/// The units of `buf` before its first zero, or all of them.
pub open spec fn wide_text(buf: Seq<u16>) -> Seq<u16>
    decreases buf.len(),
{
    if buf.len() == 0 || buf[0] == 0 {
        Seq::empty()
    } else {
        seq![buf[0]] + wide_text(buf.drop_first())
    }
}

/// The prefix that `wide_text_len` measures is `wide_text`.
proof fn lemma_wide_text_len(buf: Seq<u16>, n: int)
    requires
        0 <= n <= buf.len(),
        forall|j: int| 0 <= j < n ==> buf[j] != 0,
        n < buf.len() ==> buf[n] == 0,
    ensures
        buf.take(n) == wide_text(buf),
    decreases n,
{
    if n == 0 {
        assert(buf.take(0) =~= Seq::<u16>::empty());
    } else {
        let rest = buf.drop_first();
        assert forall|j: int| 0 <= j < n - 1 implies rest[j] != 0 by {
            assert(rest[j] == buf[j + 1]);
        }
        if n - 1 < rest.len() {
            assert(rest[n - 1] == buf[n]);
        }
        lemma_wide_text_len(rest, n - 1);
        assert(buf.take(n) =~= seq![buf[0]] + rest.take(n - 1));
    }
}

/// The character with code point `code`.
pub open spec fn code_point(code: int) -> char {
    code as char
}

/// The text that the UTF-16 units `units` encode, or `None` when they hold a
/// surrogate that is not part of a high-low pair.
pub open spec fn utf16_decode(units: Seq<u16>) -> Option<Seq<char>>
    decreases units.len(),
{
    if units.len() == 0 {
        Some(Seq::empty())
    } else if units[0] < 0xD800 || units[0] > 0xDFFF {
        match utf16_decode(units.drop_first()) {
            Some(rest) => Some(seq![code_point(units[0] as int)] + rest),
            None => None,
        }
    } else if units[0] <= 0xDBFF && units.len() >= 2 && 0xDC00 <= units[1] <= 0xDFFF {
        match utf16_decode(units.subrange(2, units.len() as int)) {
            Some(rest) => Some(
                seq![code_point(0x10000 + (units[0] - 0xD800) * 0x400 + (units[1] - 0xDC00))]
                    + rest,
            ),
            None => None,
        }
    } else {
        None
    }
}

/// Whether `c` has the Unicode `White_Space` property.
pub open spec fn is_white_space(c: char) -> bool {
    let u = c as u32;
    (0x9 <= u <= 0xD) || u == 0x20 || u == 0x85 || u == 0xA0 || u == 0x1680 || (0x2000 <= u
        <= 0x200A) || u == 0x2028 || u == 0x2029 || u == 0x202F || u == 0x205F || u == 0x3000
}

/// `text` without the white space at its end.
pub open spec fn trim_end_text(text: Seq<char>) -> Seq<char>
    decreases text.len(),
{
    if text.len() > 0 && is_white_space(text.last()) {
        trim_end_text(text.drop_last())
    } else {
        text
    }
}

/// Trimming keeps a prefix of the text, removes only white space, and leaves
/// text that does not end in white space.
pub proof fn lemma_trim_end_text(text: Seq<char>)
    ensures
        trim_end_text(text).len() <= text.len(),
        trim_end_text(text) == text.take(trim_end_text(text).len() as int),
        forall|i: int|
            trim_end_text(text).len() <= i < text.len() ==> is_white_space(#[trigger] text[i]),
        trim_end_text(text).len() > 0 ==> !is_white_space(trim_end_text(text).last()),
    decreases text.len(),
{
    if text.len() > 0 && is_white_space(text.last()) {
        let rest = text.drop_last();
        lemma_trim_end_text(rest);
        let t = trim_end_text(rest);
        assert(t == rest.take(t.len() as int));
        assert(text.take(t.len() as int) =~= rest.take(t.len() as int));
        assert forall|i: int| t.len() <= i < text.len() implies is_white_space(#[trigger] text[i]) by {
            if i < rest.len() {
                assert(rest[i] == text[i]);
            }
        }
    } else {
        assert(text.take(text.len() as int) =~= text);
    }
}

/// The decimal digits of `n`, most significant first.
pub open spec fn decimal_digits(n: nat) -> Seq<char>
    decreases n,
{
    if n < 10 {
        seq![code_point('0' as int + n)]
    } else {
        decimal_digits(n / 10).push(code_point('0' as int + n % 10))
    }
}

/// `n` written in decimal, with a leading minus sign when negative.
pub open spec fn decimal_text(n: int) -> Seq<char> {
    if n < 0 {
        seq!['-'] + decimal_digits((-n) as nat)
    } else {
        decimal_digits(n as nat)
    }
}

/// `String::from_utf16`: the text that `units` encode, or `None` when they
/// hold an unpaired surrogate.
#[verifier::external_body]
fn string_from_utf16(units: &[u16]) -> (s: Option<String>)
    ensures
        s is Some <==> utf16_decode(units@) is Some,
        s matches Some(t) ==> t@ == utf16_decode(units@).unwrap(),
{
    String::from_utf16(units).ok()
}

/// `str::trim_end`: the text without the `White_Space` characters at its end.
#[verifier::external_body]
fn str_trim_end(text: &str) -> (t: &str)
    ensures
        t@ == trim_end_text(text@),
{
    text.trim_end()
}

/// `<i32 as ToString>::to_string`: the number in decimal.
#[verifier::external_body]
fn i32_to_decimal(n: i32) -> (s: String)
    ensures
        s@ == decimal_text(n as int),
{
    n.to_string()
}

/// The fallback message for result code `errnum`, with `detail` saying why
/// the system gave no text.
pub open spec fn os_error_fallback(errnum: i32, detail: Seq<char>) -> Seq<char> {
    "OS Error "@ + decimal_text(errnum as int) + detail
}

/// The message for result code `errnum`, from the system's answer: `written`
/// wide characters (zero when it had no text) placed in `buf`. The text is
/// read up to its first zero and loses its trailing white space; without text,
/// or with text that is not UTF-16, the message names the code.
pub fn os_error_message(errnum: i32, written: u32, buf: &[u16]) -> (msg: String)
    ensures
        written == 0 ==> msg@ == os_error_fallback(
            errnum,
            " (FormatMessageW() returned error)"@,
        ),
        written != 0 ==> msg@ == match utf16_decode(wide_text(buf@)) {
            Some(text) => trim_end_text(text),
            None => os_error_fallback(errnum, " (FormatMessageW() returned invalid UTF-16)"@),
        },
{
    if written == 0 {
        let mut msg = String::from_str("OS Error ");
        let number = i32_to_decimal(errnum);
        msg.append(number.as_str());
        msg.append(" (FormatMessageW() returned error)");
        return msg;
    }
    let n = wide_text_len(buf);
    proof {
        lemma_wide_text_len(buf@, n as int);
    }
    let text = &buf[0..n];
    assert(text@ =~= buf@.take(n as int));
    match string_from_utf16(text) {
        Some(decoded) => String::from_str(str_trim_end(decoded.as_str())),
        None => {
            let mut msg = String::from_str("OS Error ");
            let number = i32_to_decimal(errnum);
            msg.append(number.as_str());
            msg.append(" (FormatMessageW() returned invalid UTF-16)");
            msg
        },
    }
}

} // verus!
