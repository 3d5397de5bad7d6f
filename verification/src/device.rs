//! Devices and the properties that the backend reports for them.
//!
//! An MLX device is a plain value: a type and an index. Its description, its equality and
//! its fields are computed here from those two values. Which devices exist, which is the
//! default and what they report about themselves is the backend's knowledge. For the queries of
//! a device's report, the library checks the key, turns the backend's answers into results, and
//! decides the steps of reading the list of keys and of showing a report.

use vstd::prelude::*;
use vstd::utf8::encode_utf8;

use crate::error::Exception;
use crate::fast::last_mlx_error;
use crate::utils::{nul_free, CText};

verus! {

/// Type of device.
#[derive(Clone, Copy, Debug, PartialEq, Eq, Structural)]
pub enum DeviceType {
    /// CPU device
    Cpu,
    /// GPU device
    Gpu,
}

/// Representation of a Device in MLX: its type and its index among the devices of that type.
///
/// Its text, `Device(gpu, 0)`, is given by [`Device::describe`].
#[derive(Clone, Copy, PartialEq, Eq, Structural)]
pub struct Device {
    device_type: DeviceType,
    index: i32,
}

impl View for Device {
    type V = (DeviceType, i32);

    closed spec fn view(&self) -> (DeviceType, i32) {
        (self.device_type, self.index)
    }
}

/// The name of a device type in a device's description.
pub open spec fn device_type_name(t: DeviceType) -> Seq<char> {
    match t {
        DeviceType::Cpu => "cpu"@,
        DeviceType::Gpu => "gpu"@,
    }
}

/// The character of the decimal digit `d`.
pub open spec fn digit_char(d: nat) -> char {
    ('0' as u32 + d) as char
}

/// The decimal digits of `n`, most significant first, without leading zeros.
pub open spec fn decimal_digits(n: nat) -> Seq<char>
    decreases n,
{
    if n < 10 {
        seq![digit_char(n)]
    } else {
        decimal_digits(n / 10).push(digit_char(n % 10))
    }
}

/// `i` written in decimal, with a leading `-` when it is negative.
pub open spec fn decimal(i: int) -> Seq<char> {
    if i < 0 {
        seq!['-'] + decimal_digits((-i) as nat)
    } else {
        decimal_digits(i as nat)
    }
}

/// How MLX describes a device: `Device(gpu, 0)`, `Device(cpu, 1)`.
pub open spec fn device_description(d: (DeviceType, i32)) -> Seq<char> {
    "Device("@ + device_type_name(d.0) + ", "@ + decimal(d.1 as int) + ")"@
}

/// The one-character text of the digit `d`.
fn digit_str(d: u32) -> (s: &'static str)
    requires
        d < 10,
    ensures
        s@ == seq![digit_char(d as nat)],
{
    proof {
        reveal_strlit("0");
        reveal_strlit("1");
        reveal_strlit("2");
        reveal_strlit("3");
        reveal_strlit("4");
        reveal_strlit("5");
        reveal_strlit("6");
        reveal_strlit("7");
        reveal_strlit("8");
        reveal_strlit("9");
    }
    let s = match d {
        0 => "0",
        1 => "1",
        2 => "2",
        3 => "3",
        4 => "4",
        5 => "5",
        6 => "6",
        7 => "7",
        8 => "8",
        _ => "9",
    };
    assert(s@ =~= seq![digit_char(d as nat)]);
    s
}

/// Appends the decimal digits of `n` to `s`.
fn append_decimal_digits(s: &mut String, n: u64)
    ensures
        final(s)@ == old(s)@ + decimal_digits(n as nat),
    decreases n,
{
    if n >= 10 {
        append_decimal_digits(s, n / 10);
    }
    s.append(digit_str((n % 10) as u32));
    assert(s@ =~= old(s)@ + decimal_digits(n as nat));
}

impl Device {
    /// The device of type `device_type` with index `index`.
    pub fn new(device_type: DeviceType, index: i32) -> (d: Device)
        ensures
            d@ == (device_type, index),
    {
        Device { device_type, index }
    }

    /// The default CPU device, `Device(cpu, 0)`.
    pub fn cpu() -> (d: Device)
        ensures
            d@ == (DeviceType::Cpu, 0i32),
    {
        Device::new(DeviceType::Cpu, 0)
    }

    /// The default GPU device, `Device(gpu, 0)`.
    pub fn gpu() -> (d: Device)
        ensures
            d@ == (DeviceType::Gpu, 0i32),
    {
        Device::new(DeviceType::Gpu, 0)
    }

    /// Get the device index
    pub fn get_index(&self) -> (r: Result<i32, Exception>)
        ensures
            r matches Ok(i) && i == self@.1,
    {
        Ok(self.index)
    }

    /// Get the device type
    pub fn get_type(&self) -> (r: Result<DeviceType, Exception>)
        ensures
            r matches Ok(t) && t == self@.0,
    {
        Ok(self.device_type)
    }

    /// The description of this device, such as `Device(gpu, 0)`; what its `Display` shows.
    pub fn describe(&self) -> (s: String)
        ensures
            s@ == device_description(self@),
    {
        proof {
            reveal_strlit("cpu");
            reveal_strlit("gpu");
        }
        let mut s = String::new();
        s.append("Device(");
        match self.device_type {
            DeviceType::Cpu => s.append("cpu"),
            DeviceType::Gpu => s.append("gpu"),
        }
        s.append(", ");
        if self.index < 0 {
            s.append("-");
            proof {
                reveal_strlit("-");
            }
            let magnitude: i64 = -(self.index as i64);
            append_decimal_digits(&mut s, magnitude as u64);
        } else {
            append_decimal_digits(&mut s, self.index as u64);
        }
        s.append(")");
        assert(s@ =~= device_description(self@));
        s
    }
}

/// Two devices are equal exactly when they have the same type and the same index.
pub proof fn lemma_device_eq(a: Device, b: Device)
    ensures
        a == b <==> a@ == b@,
{
}

/// The message of the error for a key that cannot be passed to C.
pub open spec fn invalid_key_message() -> Seq<char> {
    "Invalid key"@
}

/// `key` as a C string, or an error when it holds a nul byte (and the backend is not asked).
pub fn c_key(key: &str) -> (r: Result<CText, Exception>)
    ensures
        r is Ok <==> nul_free(key@),
        r matches Ok(t) ==> t@ == encode_utf8(key@),
        r matches Err(e) ==> e@ == invalid_key_message(),
{
    match CText::new(key) {
        Some(t) => Ok(t),
        None => Err(Exception::custom("Invalid key")),
    }
}

/// The message of a failed answer: what the backend recorded, else `fallback`.
pub open spec fn recorded_or(recorded: Option<Exception>, fallback: Seq<char>) -> Seq<char> {
    match recorded {
        Some(r) => r@,
        None => fallback,
    }
}

/// The result of a query that the backend answered with `status` (0 for success) and
/// `value`: the value, or the error the backend recorded (`recorded`), else `fallback`.
pub fn backend_answer<T>(status: i32, value: T, recorded: Option<Exception>, fallback: &str) -> (r:
    Result<T, Exception>)
    ensures
        status == 0 ==> r == Ok::<T, Exception>(value),
        status != 0 ==> (r matches Err(e) && e@ == recorded_or(recorded, fallback@)),
{
    if status == 0 {
        Ok(value)
    } else {
        Err(last_mlx_error(recorded, fallback))
    }
}

/// The fallback messages of the queries of a device's report.
pub open spec fn missing_key_message() -> Seq<char> {
    "Device info key is missing"@
}

pub open spec fn not_a_string_message() -> Seq<char> {
    "Device info key is missing or is not a string"@
}

pub open spec fn not_a_size_message() -> Seq<char> {
    "Device info key is missing or is not a size"@
}

/// Whether a key's value is a string, as the backend answered: an error for a key that is not
/// reported.
pub fn is_string_answer(status: i32, is_string: bool, recorded: Option<Exception>) -> (r: Result<
    bool,
    Exception,
>)
    ensures
        status == 0 ==> r == Ok::<bool, Exception>(is_string),
        status != 0 ==> (r matches Err(e) && e@ == recorded_or(recorded, missing_key_message())),
{
    backend_answer(status, is_string, recorded, "Device info key is missing")
}

/// A key's string value, as the backend answered: an error for a key that is missing or holds a
/// size.
pub fn get_string_answer(status: i32, value: String, recorded: Option<Exception>) -> (r: Result<
    String,
    Exception,
>)
    ensures
        status == 0 ==> r == Ok::<String, Exception>(value),
        status != 0 ==> (r matches Err(e) && e@ == recorded_or(recorded, not_a_string_message())),
{
    backend_answer(status, value, recorded, "Device info key is missing or is not a string")
}

/// A key's size value, as the backend answered: an error for a key that is missing or holds a
/// string.
pub fn get_size_answer(status: i32, value: usize, recorded: Option<Exception>) -> (r: Result<
    usize,
    Exception,
>)
    ensures
        status == 0 ==> r == Ok::<usize, Exception>(value),
        status != 0 ==> (r matches Err(e) && e@ == recorded_or(recorded, not_a_size_message())),
{
    backend_answer(status, value, recorded, "Device info key is missing or is not a size")
}

/// Where reading the keys of a device's report stands: which answer it waits for. The backend
/// hands out the list of keys first, then the keys one by one.
pub enum KeysReadState {
    /// Waiting for the list of keys.
    GettingKeys,
    /// Waiting for the key at `index` of the `len` keys.
    ReadingKey { index: usize, len: usize },
    /// Reading is over and the list of keys is freed.
    Finished,
}

/// What the backend answered. `status` is 0 for success; `recorded` is the error message the
/// backend recorded, if any.
pub enum KeysReadEvent {
    /// The list of keys was fetched; it holds `len` keys.
    KeysRead { status: i32, len: usize, recorded: Option<Exception> },
    /// The next key was read.
    KeyRead { status: i32, key: String, recorded: Option<Exception> },
}

/// What the caller does next.
pub enum KeysReadAction {
    /// Read the key at `index` of the list.
    ReadKey { index: usize },
    /// Free the list and fail with `error`.
    Fail { error: Exception },
    /// Free the list; the keys read are all the keys.
    Finish,
}

/// Whether `event` answers what `state` waits for.
pub open spec fn keys_event_fits(state: KeysReadState, event: KeysReadEvent) -> bool {
    match (state, event) {
        (KeysReadState::GettingKeys, KeysReadEvent::KeysRead { .. }) => true,
        (KeysReadState::ReadingKey { index, len }, KeysReadEvent::KeyRead { .. }) => index < len,
        _ => false,
    }
}

/// The next state, keys read so far and action of reading the keys of a report that stands at
/// `state` with `keys` read so far, once `event` has come. Every failure and the end free the
/// list, and only they end the reading.
pub fn keys_read_step(state: KeysReadState, keys: Vec<String>, event: KeysReadEvent) -> (r: (
    KeysReadState,
    Vec<String>,
    KeysReadAction,
))
    requires
        keys_event_fits(state, event),
    ensures
        (r.2 is Fail || r.2 is Finish) <==> r.0 is Finished,
        match event {
            KeysReadEvent::KeysRead { status, len, recorded } => {
                &&& r.1@ == keys@
                &&& if status != 0 {
                    r.2 matches KeysReadAction::Fail { error } && error@ == recorded_or(
                        recorded,
                        "Failed to get device info keys"@,
                    )
                } else if len == 0 {
                    r.2 is Finish
                } else {
                    r.0 == (KeysReadState::ReadingKey { index: 0, len }) && r.2 == (
                    KeysReadAction::ReadKey { index: 0 })
                }
            },
            KeysReadEvent::KeyRead { status, key, recorded } => if status != 0 {
                &&& r.1@ == keys@
                &&& r.2 matches KeysReadAction::Fail { error }
                &&& error@ == recorded_or(recorded, "Failed to read device info key"@)
            } else {
                &&& state matches KeysReadState::ReadingKey { index, len }
                &&& r.1@ == keys@.push(key)
                &&& if index + 1 < len {
                    r.0 == (KeysReadState::ReadingKey { index: (index + 1) as usize, len })
                        && r.2 == (KeysReadAction::ReadKey { index: (index + 1) as usize })
                } else {
                    r.2 is Finish
                }
            },
        },
{
    let mut keys = keys;
    match event {
        KeysReadEvent::KeysRead { status, len, recorded } => {
            if status != 0 {
                let error = last_mlx_error(recorded, "Failed to get device info keys");
                (KeysReadState::Finished, keys, KeysReadAction::Fail { error })
            } else if len == 0 {
                (KeysReadState::Finished, keys, KeysReadAction::Finish)
            } else {
                (KeysReadState::ReadingKey { index: 0, len }, keys, KeysReadAction::ReadKey { index: 0 })
            }
        },
        KeysReadEvent::KeyRead { status, key, recorded } => {
            if status != 0 {
                let error = last_mlx_error(recorded, "Failed to read device info key");
                return (KeysReadState::Finished, keys, KeysReadAction::Fail { error });
            }
            match state {
                KeysReadState::ReadingKey { index, len } => {
                    keys.push(key);
                    if index + 1 < len {
                        (
                            KeysReadState::ReadingKey { index: index + 1, len },
                            keys,
                            KeysReadAction::ReadKey { index: index + 1 },
                        )
                    } else {
                        (KeysReadState::Finished, keys, KeysReadAction::Finish)
                    }
                },
                _ => (KeysReadState::Finished, keys, KeysReadAction::Finish),
            }
        },
    }
}

/// The text that `{:?}` gives for a string: the text in double quotes, with quotes,
/// backslashes and characters that do not print escaped.
pub uninterp spec fn debug_quoted(text: Seq<char>) -> Seq<char>;

/// `<str as Debug>::fmt`, through `format!("{:?}", s)`. Trusted: the claim is only that the
/// result is `debug_quoted` of the text, that is, that it depends on the text alone; how std
/// escapes is left unsaid.
#[verifier::external_body]
fn debug_str(s: &str) -> (r: String)
    ensures
        r@ == debug_quoted(s@),
{
    format!("{:?}", s)
}

/// What the backend answered for one key of a report, as `Debug` shows it: a string value, a
/// size value (each `None` when reading it failed), or a failure to tell which one it holds.
pub enum InfoDebugValue {
    Text(Option<String>),
    Size(Option<usize>),
    Error,
}

/// How an answer is shown: `Some(value)` or `None`, or the quoted `<error>`.
pub open spec fn info_value_debug(v: InfoDebugValue) -> Seq<char> {
    match v {
        InfoDebugValue::Text(Some(t)) => "Some("@ + debug_quoted(t@) + ")"@,
        InfoDebugValue::Size(Some(n)) => "Some("@ + decimal_digits(n as nat) + ")"@,
        InfoDebugValue::Text(None) | InfoDebugValue::Size(None) => "None"@,
        InfoDebugValue::Error => debug_quoted("<error>"@),
    }
}

/// How one entry is shown: the quoted key, `: ` and its answer.
pub open spec fn info_entry_debug(e: (String, InfoDebugValue)) -> Seq<char> {
    debug_quoted(e.0@) + ": "@ + info_value_debug(e.1)
}

/// The entries shown one after the other, separated by `, `.
pub open spec fn info_entries_debug(entries: Seq<(String, InfoDebugValue)>) -> Seq<char>
    decreases entries.len(),
{
    if entries.len() == 0 {
        Seq::empty()
    } else if entries.len() == 1 {
        info_entry_debug(entries[0])
    } else {
        info_entries_debug(entries.drop_last()) + ", "@ + info_entry_debug(entries.last())
    }
}

/// What `{:?}` shows for a report: a map from each key to its answer, in the order of the keys.
pub open spec fn info_description(entries: Seq<(String, InfoDebugValue)>) -> Seq<char> {
    "{"@ + info_entries_debug(entries) + "}"@
}

/// The text `Debug` shows for a report whose keys and answers are `entries`, such as
/// `{"device_name": Some("Apple M3 Max"), "memory_size": Some(137438953472)}`.
pub fn info_debug_text(entries: &[(String, InfoDebugValue)]) -> (s: String)
    ensures
        s@ == info_description(entries@),
{
    let mut s = String::new();
    s.append("{");
    let mut i: usize = 0;
    while i < entries.len()
        invariant
            i <= entries@.len(),
            s@ == "{"@ + info_entries_debug(entries@.take(i as int)),
        decreases entries@.len() - i,
    {
        if i > 0 {
            s.append(", ");
        }
        let quoted = debug_str(entries[i].0.as_str());
        s.append(quoted.as_str());
        s.append(": ");
        match &entries[i].1 {
            InfoDebugValue::Text(Some(t)) => {
                s.append("Some(");
                let v = debug_str(t.as_str());
                s.append(v.as_str());
                s.append(")");
            },
            InfoDebugValue::Size(Some(n)) => {
                s.append("Some(");
                append_decimal_digits(&mut s, *n as u64);
                s.append(")");
            },
            InfoDebugValue::Text(None) | InfoDebugValue::Size(None) => {
                s.append("None");
            },
            InfoDebugValue::Error => {
                let e = debug_str("<error>");
                s.append(e.as_str());
            },
        }
        proof {
            let taken = entries@.take(i + 1);
            assert(taken.drop_last() =~= entries@.take(i as int));
            assert(taken.last() == entries@[i as int]);
            if i == 0 {
                assert(entries@.take(0) =~= Seq::<(String, InfoDebugValue)>::empty());
                assert(taken.len() == 1);
                assert(taken[0] == entries@[0]);
            }
        }
        i = i + 1;
        assert(s@ =~= "{"@ + info_entries_debug(entries@.take(i as int)));
    }
    assert(entries@.take(i as int) =~= entries@);
    s.append("}");
    s
}

/// The text of a report shows every entry, in order: the empty report shows as `{}`, and adding
/// an entry at the end adds its text (after `, ` when there are others) before the closing
/// brace, leaving the text of the earlier entries as it was.
pub proof fn law_description_shows_every_entry(
    entries: Seq<(String, InfoDebugValue)>,
    last: (String, InfoDebugValue),
)
    ensures
        info_description(Seq::empty()) == "{"@ + "}"@,
        info_description(entries.push(last)) == info_description(entries).drop_last() + (if entries.len()
            == 0 {
            Seq::<char>::empty()
        } else {
            ", "@
        }) + info_entry_debug(last) + "}"@,
{
    let grown = entries.push(last);
    assert(grown.drop_last() =~= entries);
    assert(grown.last() == last);
    if entries.len() == 0 {
        assert(grown.len() == 1);
        assert(grown[0] == last);
    }
    let before = info_description(entries);
    assert(before == "{"@ + info_entries_debug(entries) + "}"@);
    assert(before.drop_last() =~= "{"@ + info_entries_debug(entries)) by {
        reveal_strlit("}");
    }
    assert(info_description(Seq::<(String, InfoDebugValue)>::empty()) =~= "{"@ + "}"@);
    assert(info_description(grown) =~= before.drop_last() + (if entries.len() == 0 {
        Seq::<char>::empty()
    } else {
        ", "@
    }) + info_entry_debug(last) + "}"@);
}

/// The number that a text of decimal digits reads as, most significant digit first.
pub open spec fn decimal_value(text: Seq<char>) -> int
    decreases text.len(),
{
    if text.len() == 0 {
        0
    } else {
        decimal_value(text.drop_last()) * 10 + (text.last() as int - '0' as int)
    }
}

proof fn lemma_digit_char(d: nat)
    requires
        d < 10,
    ensures
        digit_char(d) as int == '0' as int + d,
        '0' <= digit_char(d) <= '9',
{
    let u: u32 = ('0' as u32 + d) as u32;
    assert(u == 48 + d);
    assert(vstd::utf8::is_scalar(u));
}

/// The decimal text of a number reads back as that number: it is made of the digits `0` to
/// `9`, is never empty, starts with `0` only for zero itself, and its digits, read in base 10,
/// give the number.
pub proof fn law_decimal_digits_read_back(n: nat)
    ensures
        decimal_digits(n).len() >= 1,
        forall|i: int|
            0 <= i < decimal_digits(n).len() ==> '0' <= #[trigger] decimal_digits(n)[i] <= '9',
        decimal_digits(n)[0] == '0' ==> n == 0,
        decimal_value(decimal_digits(n)) == n,
    decreases n,
{
    if n < 10 {
        lemma_digit_char(n);
        let t = decimal_digits(n);
        assert(t =~= seq![digit_char(n)]);
        assert(t.drop_last() =~= Seq::<char>::empty());
        assert(decimal_value(t.drop_last()) == 0);
    } else {
        law_decimal_digits_read_back(n / 10);
        lemma_digit_char(n % 10);
        let t = decimal_digits(n);
        let head = decimal_digits(n / 10);
        assert(t == head.push(digit_char(n % 10)));
        assert(t.drop_last() =~= head);
        assert(t[0] == head[0]);
        assert(n == (n / 10) * 10 + n % 10);
    }
}

} // verus!
