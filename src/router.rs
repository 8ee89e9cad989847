use vstd::prelude::*;
use vstd::array::{spec_array_fill_for_copy_type, spec_array_update};
use vstd::string::*;

use crate::commands::Command;
use crate::config::{enabled_inverters_of, ConfigWrapper, Inverter};
use crate::serial::{is_alnum_char, Serial};

verus! {

/// Which inverters a command topic addresses.
#[derive(Clone, Copy, Debug, PartialEq, Eq)]
pub enum Target {
    All,
    Datalog(Serial),
}

/// Why an MQTT message is not a command.
#[derive(Clone, Copy, Debug, PartialEq, Eq, Structural)]
pub enum RouteError {
    /// The topic is not under `{namespace}/cmd/`.
    NotACommand,
    /// The target is neither `all` nor a datalog serial.
    BadTarget,
    /// The verb and arguments name no command.
    UnknownCommand,
    /// The payload does not hold what the command needs.
    BadPayload,
}

// ---------------------------------------------------------------- characters
/// The characters of a string slice.
pub fn chars_of(s: &str) -> (r: Vec<char>)
    ensures
        r@ == s@,
{
    let n = s.unicode_len();
    let mut r: Vec<char> = Vec::new();
    let mut i: usize = 0;
    while i < n
        invariant
            n == s@.len(),
            i <= n,
            r@ == s@.subrange(0, i as int),
        decreases n - i,
    {
        r.push(s.get_char(i));
        assert(r@ =~= s@.subrange(0, i + 1));
        i = i + 1;
    }
    assert(r@ =~= s@);
    r
}

/// Whether `v[lo..hi]` spells `lit`.
fn range_is(v: &Vec<char>, lo: usize, hi: usize, lit: &str) -> (r: bool)
    requires
        lo <= hi <= v@.len(),
    ensures
        r == (v@.subrange(lo as int, hi as int) == lit@),
{
    let n = lit.unicode_len();
    if hi - lo != n {
        return false;
    }
    let mut i: usize = 0;
    while i < n
        invariant
            n == lit@.len(),
            hi - lo == n,
            lo <= hi <= v@.len(),
            i <= n,
            forall|j: int| 0 <= j < i ==> v@[lo + j] == lit@[j],
        decreases n - i,
    {
        if v[lo + i] != lit.get_char(i) {
            return false;
        }
        i = i + 1;
    }
    assert(v@.subrange(lo as int, hi as int) =~= lit@);
    true
}

fn is(v: &Vec<char>, lit: &str) -> (r: bool)
    ensures
        r == (v@ == lit@),
{
    let r = range_is(v, 0, v.len(), lit);
    assert(v@.subrange(0, v@.len() as int) =~= v@);
    r
}

/// The pieces of `s` between `/` separators (one piece for a string without `/`).
pub open spec fn segments(s: Seq<char>) -> Seq<Seq<char>>
    decreases s.len(),
{
    if s.len() == 0 {
        seq![Seq::empty()]
    } else {
        let p = segments(s.drop_last());
        if s.last() == '/' {
            p.push(Seq::empty())
        } else {
            p.update(p.len() - 1, p.last().push(s.last()))
        }
    }
}

proof fn lemma_segments_nonempty(s: Seq<char>)
    ensures
        segments(s).len() >= 1,
    decreases s.len(),
{
    if s.len() > 0 {
        lemma_segments_nonempty(s.drop_last());
    }
}

pub open spec fn views(v: Seq<Vec<char>>) -> Seq<Seq<char>> {
    v.map_values(|x: Vec<char>| x@)
}

/// Splits `v[lo..]` at every `/`.
fn split_from(v: &Vec<char>, lo: usize) -> (r: Vec<Vec<char>>)
    requires
        lo <= v@.len(),
    ensures
        views(r@) == segments(v@.subrange(lo as int, v@.len() as int)),
{
    let mut parts: Vec<Vec<char>> = Vec::new();
    let mut cur: Vec<char> = Vec::new();
    let mut i: usize = lo;
    assert(v@.subrange(lo as int, lo as int) =~= Seq::<char>::empty());
    assert(views(parts@).push(cur@) =~= segments(Seq::empty()));
    while i < v.len()
        invariant
            lo <= i <= v@.len(),
            views(parts@).push(cur@) == segments(v@.subrange(lo as int, i as int)),
        decreases v@.len() - i,
    {
        let c = v[i];
        let ghost s = v@.subrange(lo as int, i + 1);
        assert(s.drop_last() =~= v@.subrange(lo as int, i as int));
        assert(s.last() == c);
        proof {
            lemma_segments_nonempty(s.drop_last());
        }
        if c == '/' {
            let mut done: Vec<char> = Vec::new();
            std::mem::swap(&mut done, &mut cur);
            let ghost before = views(parts@);
            parts.push(done);
            assert(views(parts@) =~= before.push(done@));
            assert(views(parts@).push(cur@) =~= segments(s));
        } else {
            let ghost before = views(parts@);
            cur.push(c);
            assert(views(parts@).push(cur@) =~= segments(s));
        }
        i = i + 1;
    }
    parts.push(cur);
    assert(views(parts@) =~= segments(v@.subrange(lo as int, v@.len() as int)));
    parts
}

// ---------------------------------------------------------------- numbers and payloads
pub open spec fn is_digit(c: char) -> bool {
    '0' <= c && c <= '9'
}

pub open spec fn digit_value(c: char) -> int {
    c as int - '0' as int
}

pub open spec fn number_value(s: Seq<char>) -> int
    decreases s.len(),
{
    if s.len() == 0 {
        0
    } else {
        number_value(s.drop_last()) * 10 + digit_value(s.last())
    }
}

/// A decimal number of one to five digits below 65536.
pub open spec fn parse_number(s: Seq<char>) -> Option<u16> {
    if 1 <= s.len() <= 5 && (forall|i: int| 0 <= i < s.len() ==> is_digit(#[trigger] s[i]))
        && number_value(s) < 65536 {
        Some(number_value(s) as u16)
    } else {
        None
    }
}

proof fn lemma_number_bound(s: Seq<char>)
    requires
        forall|i: int| 0 <= i < s.len() ==> is_digit(#[trigger] s[i]),
    ensures
        0 <= number_value(s) < pow10(s.len()),
    decreases s.len(),
{
    if s.len() > 0 {
        let t = s.drop_last();
        assert forall|i: int| 0 <= i < t.len() implies is_digit(#[trigger] t[i]) by {
            assert(t[i] == s[i]);
        }
        lemma_number_bound(t);
        assert(is_digit(s[s.len() - 1]));
    }
}

pub open spec fn pow10(n: nat) -> int
    decreases n,
{
    if n == 0 {
        1
    } else {
        10 * pow10((n - 1) as nat)
    }
}

/// Reads `v[lo..hi]` as a decimal number.
fn number_in(v: &Vec<char>, lo: usize, hi: usize) -> (r: Option<u16>)
    requires
        lo <= hi <= v@.len(),
    ensures
        r == parse_number(v@.subrange(lo as int, hi as int)),
{
    let ghost s = v@.subrange(lo as int, hi as int);
    if hi - lo < 1 || hi - lo > 5 {
        return None;
    }
    let mut acc: u32 = 0;
    let mut i: usize = lo;
    assert(s.subrange(0, 0) =~= Seq::<char>::empty());
    while i < hi
        invariant
            lo <= i <= hi,
            hi <= v@.len(),
            hi - lo <= 5,
            s == v@.subrange(lo as int, hi as int),
            forall|j: int| 0 <= j < i - lo ==> is_digit(#[trigger] s[j]),
            acc as int == number_value(s.subrange(0, i - lo)),
            acc < pow10((i - lo) as nat),
        decreases hi - i,
    {
        let c = v[i];
        assert(s[i - lo] == c);
        if !('0' <= c && c <= '9') {
            return None;
        }
        let ghost t = s.subrange(0, i - lo + 1);
        assert(t.drop_last() =~= s.subrange(0, i - lo));
        assert(t.last() == c);
        assert(pow10((i - lo + 1) as nat) == 10 * pow10((i - lo) as nat));
        assert(pow10((i - lo) as nat) <= 10000) by {
            assert(pow10(0) == 1);
            assert(pow10(1) == 10);
            assert(pow10(2) == 100);
            assert(pow10(3) == 1000);
            assert(pow10(4) == 10000);
        }
        acc = acc * 10 + (c as u32 - '0' as u32);
        i = i + 1;
    }
    assert(s.subrange(0, s.len() as int) =~= s);
    if acc < 65536 {
        Some(acc as u16)
    } else {
        None
    }
}

fn number(v: &Vec<char>) -> (r: Option<u16>)
    ensures
        r == parse_number(v@),
{
    let r = number_in(v, 0, v.len());
    assert(v@.subrange(0, v@.len() as int) =~= v@);
    r
}

/// `on`, `true` or `1` switch on; `off`, `false` or `0` switch off.
pub open spec fn parse_switch(p: Seq<char>) -> Option<bool> {
    if p == "on"@ || p == "true"@ || p == "1"@ {
        Some(true)
    } else if p == "off"@ || p == "false"@ || p == "0"@ {
        Some(false)
    } else {
        None
    }
}

fn switch(p: &Vec<char>) -> (r: Option<bool>)
    ensures
        r == parse_switch(p@),
{
    if is(p, "on") || is(p, "true") || is(p, "1") {
        Some(true)
    } else if is(p, "off") || is(p, "false") || is(p, "0") {
        Some(false)
    } else {
        None
    }
}

/// A two-digit number at `s[i..i + 2]`.
pub open spec fn two_digit(s: Seq<char>, i: int) -> int {
    10 * digit_value(s[i]) + digit_value(s[i + 1])
}

/// `HH:MM/HH:MM` with hours below 24 and minutes below 60.
pub open spec fn parse_time_range(p: Seq<char>) -> Option<Seq<u8>> {
    if p.len() == 11 && p[2] == ':' && p[5] == '/' && p[8] == ':' && is_digit(p[0]) && is_digit(
        p[1],
    ) && is_digit(p[3]) && is_digit(p[4]) && is_digit(p[6]) && is_digit(p[7]) && is_digit(p[9])
        && is_digit(p[10]) && two_digit(p, 0) < 24 && two_digit(p, 3) < 60 && two_digit(p, 6) < 24
        && two_digit(p, 9) < 60 {
        Some(
            seq![
                two_digit(p, 0) as u8,
                two_digit(p, 3) as u8,
                two_digit(p, 6) as u8,
                two_digit(p, 9) as u8,
            ],
        )
    } else {
        None
    }
}

fn digit(c: char) -> (r: Option<u8>)
    ensures
        r is Some <==> is_digit(c),
        r matches Some(d) ==> d as int == digit_value(c),
{
    if '0' <= c && c <= '9' {
        Some((c as u32 - '0' as u32) as u8)
    } else {
        None
    }
}

fn pair_at(p: &Vec<char>, i: usize) -> (r: Option<u8>)
    requires
        i + 2 <= p@.len(),
    ensures
        r is Some <==> (is_digit(p@[i as int]) && is_digit(p@[i + 1])),
        r matches Some(v) ==> v as int == two_digit(p@, i as int),
{
    let n = p.len();
    match (digit(p[i]), digit(p[i + 1])) {
        (Some(a), Some(b)) => Some(10 * a + b),
        _ => None,
    }
}

fn time_range(p: &Vec<char>) -> (r: Option<[u8; 4]>)
    ensures
        match parse_time_range(p@) {
            Some(t) => r matches Some(a) && a@ == t,
            None => r is None,
        },
{
    if p.len() != 11 || p[2] != ':' || p[5] != '/' || p[8] != ':' {
        return None;
    }
    let (h1, m1, h2, m2) = match (pair_at(p, 0), pair_at(p, 3), pair_at(p, 6), pair_at(p, 9)) {
        (Some(a), Some(b), Some(c), Some(d)) => (a, b, c, d),
        _ => {
            return None;
        },
    };
    if h1 >= 24 || m1 >= 60 || h2 >= 24 || m2 >= 60 {
        return None;
    }
    let mut a = [0u8; 4];
    a[0] = h1;
    a[1] = m1;
    a[2] = h2;
    a[3] = m2;
    assert(a@ =~= parse_time_range(p@)->Some_0);
    Some(a)
}

// ---------------------------------------------------------------- topics
/// The parts of a topic after `{namespace}/cmd/`, when it starts so.
pub open spec fn command_parts(topic: Seq<char>, namespace: Seq<char>) -> Option<Seq<Seq<char>>> {
    let prefix = namespace + "/cmd/"@;
    if topic.len() >= prefix.len() && topic.subrange(0, prefix.len() as int) == prefix {
        Some(segments(topic.subrange(prefix.len() as int, topic.len() as int)))
    } else {
        None
    }
}

/// `t` is the target that `part` names: `all`, or ten ASCII letters or digits.
pub open spec fn names_target(part: Seq<char>, t: Target) -> bool {
    match t {
        Target::All => part == "all"@,
        Target::Datalog(s) => part != "all"@ && part.len() == 10 && (forall|i: int|
            0 <= i < 10 ==> is_alnum_char(#[trigger] part[i])) && forall|i: int|
            0 <= i < 10 ==> s@[i] == part[i] as u8,
    }
}

pub open spec fn is_target(part: Seq<char>) -> bool {
    part == "all"@ || (part.len() == 10 && forall|i: int|
        0 <= i < 10 ==> is_alnum_char(#[trigger] part[i]))
}

fn target(part: &Vec<char>) -> (r: Option<Target>)
    ensures
        r is Some <==> is_target(part@),
        r matches Some(t) ==> names_target(part@, t),
{
    if is(part, "all") {
        return Some(Target::All);
    }
    if part.len() != 10 {
        return None;
    }
    let mut bytes = [0u8; 10];
    let mut i: usize = 0;
    while i < 10
        invariant
            i <= 10,
            part@.len() == 10,
            part@ != "all"@,
            forall|j: int| 0 <= j < i ==> is_alnum_char(#[trigger] part@[j]),
            forall|j: int| 0 <= j < i ==> bytes@[j] == part@[j] as u8,
        decreases 10 - i,
    {
        let c = part[i];
        assert(part@[i as int] == c);
        if !(('0' <= c && c <= '9') || ('A' <= c && c <= 'Z') || ('a' <= c && c <= 'z')) {
            return None;
        }
        bytes[i] = c as u8;
        i = i + 1;
    }
    Some(Target::Datalog(Serial { bytes }))
}

/// A command topic split into its target and the verb with its arguments.
pub struct CommandTopic {
    pub target: Target,
    pub verb: Vec<Vec<char>>,
}

/// Splits `{namespace}/cmd/{target}/{verb}[/{arg}]`.
pub fn split_command_topic(topic: &str, namespace: &str) -> (r: Result<CommandTopic, RouteError>)
    ensures
        match command_parts(topic@, namespace@) {
            None => r == Err::<CommandTopic, RouteError>(RouteError::NotACommand),
            Some(parts) => if parts.len() > 0 && is_target(parts[0]) {
                r matches Ok(ct) && names_target(parts[0], ct.target) && views(ct.verb@)
                    == parts.subrange(1, parts.len() as int)
            } else {
                r == Err::<CommandTopic, RouteError>(RouteError::BadTarget)
            },
        },
{
    let t = chars_of(topic);
    let mut prefix = chars_of(namespace);
    let tail = chars_of("/cmd/");
    let mut k: usize = 0;
    while k < tail.len()
        invariant
            tail@ == "/cmd/"@,
            k <= tail@.len(),
            prefix@ == namespace@ + tail@.subrange(0, k as int),
        decreases tail@.len() - k,
    {
        prefix.push(tail[k]);
        assert(prefix@ =~= namespace@ + tail@.subrange(0, k + 1));
        k = k + 1;
    }
    assert(tail@.subrange(0, tail@.len() as int) =~= tail@);
    if t.len() < prefix.len() {
        return Err(RouteError::NotACommand);
    }
    let mut i: usize = 0;
    while i < prefix.len()
        invariant
            t@ == topic@,
            prefix@ == namespace@ + "/cmd/"@,
            prefix@.len() <= t@.len(),
            i <= prefix@.len(),
            forall|j: int| 0 <= j < i ==> t@[j] == prefix@[j],
        decreases prefix@.len() - i,
    {
        if t[i] != prefix[i] {
            assert(t@.subrange(0, prefix@.len() as int)[i as int] != prefix@[i as int]);
            return Err(RouteError::NotACommand);
        }
        i = i + 1;
    }
    assert(t@.subrange(0, prefix@.len() as int) =~= prefix@);
    let mut parts = split_from(&t, prefix.len());
    proof {
        lemma_segments_nonempty(t@.subrange(prefix@.len() as int, t@.len() as int));
    }
    let ghost all_parts = views(parts@);
    let first = parts.remove(0);
    assert(first@ == all_parts[0]);
    assert(views(parts@) =~= all_parts.subrange(1, all_parts.len() as int));
    match target(&first) {
        Some(tg) => Ok(CommandTopic { target: tg, verb: parts }),
        None => Err(RouteError::BadTarget),
    }
}

// ---------------------------------------------------------------- commands
/// The array holding the four bytes of `t`.
pub open spec fn array4(t: Seq<u8>) -> [u8; 4] {
    spec_array_update(
        spec_array_update(
            spec_array_update(
                spec_array_update(spec_array_fill_for_copy_type::<u8, 4>(0), 0, t[0]),
                1,
                t[1],
            ),
            2,
            t[2],
        ),
        3,
        t[3],
    )
}

proof fn lemma_array4(a: [u8; 4], t: Seq<u8>)
    requires
        a@ == t,
    ensures
        a == array4(t),
{
    let b = array4(t);
    assert(b@ =~= spec_array_fill_for_copy_type::<u8, 4>(0)@.update(0, t[0]).update(1, t[1]).update(
        2,
        t[2],
    ).update(3, t[3]));
    assert(a@ =~= b@);
    assert forall|i: int| 0 <= i < 4 implies a[i] == b[i] by {
        assert(a[i] == a@[i]);
        assert(b[i] == b@[i]);
    }
    assert(a =~= b);
}

/// Registers to read: the payload, or one when it is empty.
pub open spec fn count_payload(p: Seq<char>) -> Option<u16> {
    if p.len() == 0 {
        Some(1)
    } else {
        parse_number(p)
    }
}

/// A percentage from 0 to 100.
pub open spec fn percent_payload(p: Seq<char>) -> Option<u16> {
    match parse_number(p) {
        Some(n) => if n <= 100 {
            Some(n)
        } else {
            None
        },
        None => None,
    }
}

pub open spec fn or_bad_payload(c: Option<Command>) -> Result<Command, RouteError> {
    match c {
        Some(x) => Ok(x),
        None => Err(RouteError::BadPayload),
    }
}

/// The command that verb parts `v` with payload `p` ask of `inv`.
pub open spec fn command_of(v: Seq<Seq<char>>, p: Seq<char>, inv: Inverter) -> Result<Command, RouteError> {
    if v.len() == 3 && v[0] == "read"@ {
        match parse_number(v[2]) {
            None => Err(RouteError::UnknownCommand),
            Some(n) => {
                let k = v[1];
                if k == "inputs"@ {
                    Ok(Command::ReadInputs(inv, n))
                } else if k == "input"@ {
                    or_bad_payload(
                        match count_payload(p) {
                            Some(c) => Some(Command::ReadInput(inv, n, c)),
                            None => None,
                        },
                    )
                } else if k == "hold"@ {
                    or_bad_payload(
                        match count_payload(p) {
                            Some(c) => Some(Command::ReadHold(inv, n, c)),
                            None => None,
                        },
                    )
                } else if k == "param"@ {
                    Ok(Command::ReadParam(inv, n))
                } else if k == "ac_charge"@ {
                    Ok(Command::ReadAcChargeTime(inv, n))
                } else if k == "ac_first"@ {
                    Ok(Command::ReadAcFirstTime(inv, n))
                } else if k == "charge_priority"@ {
                    Ok(Command::ReadChargePriorityTime(inv, n))
                } else if k == "forced_discharge"@ {
                    Ok(Command::ReadForcedDischargeTime(inv, n))
                } else {
                    Err(RouteError::UnknownCommand)
                }
            },
        }
    } else if v.len() == 3 && v[0] == "set"@ {
        match parse_number(v[2]) {
            None => Err(RouteError::UnknownCommand),
            Some(n) => {
                let k = v[1];
                let t = parse_time_range(p);
                if k == "hold"@ {
                    or_bad_payload(
                        match parse_number(p) {
                            Some(x) => Some(Command::SetHold(inv, n, x)),
                            None => None,
                        },
                    )
                } else if k == "param"@ {
                    or_bad_payload(
                        match parse_number(p) {
                            Some(x) => Some(Command::WriteParam(inv, n, x)),
                            None => None,
                        },
                    )
                } else if k == "ac_charge"@ {
                    or_bad_payload(
                        match t {
                            Some(x) => Some(Command::SetAcChargeTime(inv, n, array4(x))),
                            None => None,
                        },
                    )
                } else if k == "ac_first"@ {
                    or_bad_payload(
                        match t {
                            Some(x) => Some(Command::SetAcFirstTime(inv, n, array4(x))),
                            None => None,
                        },
                    )
                } else if k == "charge_priority"@ {
                    or_bad_payload(
                        match t {
                            Some(x) => Some(Command::SetChargePriorityTime(inv, n, array4(x))),
                            None => None,
                        },
                    )
                } else if k == "forced_discharge"@ {
                    or_bad_payload(
                        match t {
                            Some(x) => Some(Command::SetForcedDischargeTime(inv, n, array4(x))),
                            None => None,
                        },
                    )
                } else {
                    Err(RouteError::UnknownCommand)
                }
            },
        }
    } else if v.len() == 2 && v[0] == "set"@ {
        let k = v[1];
        let b = parse_switch(p);
        let pct = percent_payload(p);
        if k == "ac_charge"@ {
            or_bad_payload(
                match b {
                    Some(x) => Some(Command::AcCharge(inv, x)),
                    None => None,
                },
            )
        } else if k == "charge_priority"@ {
            or_bad_payload(
                match b {
                    Some(x) => Some(Command::ChargePriority(inv, x)),
                    None => None,
                },
            )
        } else if k == "forced_discharge"@ {
            or_bad_payload(
                match b {
                    Some(x) => Some(Command::ForcedDischarge(inv, x)),
                    None => None,
                },
            )
        } else if k == "charge_rate_pct"@ {
            or_bad_payload(
                match pct {
                    Some(x) => Some(Command::ChargeRate(inv, x)),
                    None => None,
                },
            )
        } else if k == "discharge_rate_pct"@ {
            or_bad_payload(
                match pct {
                    Some(x) => Some(Command::DischargeRate(inv, x)),
                    None => None,
                },
            )
        } else if k == "ac_charge_rate_pct"@ {
            or_bad_payload(
                match pct {
                    Some(x) => Some(Command::AcChargeRate(inv, x)),
                    None => None,
                },
            )
        } else if k == "ac_charge_soc_limit_pct"@ {
            or_bad_payload(
                match pct {
                    Some(x) => Some(Command::AcChargeSocLimit(inv, x)),
                    None => None,
                },
            )
        } else if k == "discharge_cutoff_soc_limit_pct"@ {
            or_bad_payload(
                match pct {
                    Some(x) => Some(Command::DischargeCutoffSocLimit(inv, x)),
                    None => None,
                },
            )
        } else {
            Err(RouteError::UnknownCommand)
        }
    } else {
        Err(RouteError::UnknownCommand)
    }
}

fn count(p: &Vec<char>) -> (r: Option<u16>)
    ensures
        r == count_payload(p@),
{
    if p.len() == 0 {
        Some(1)
    } else {
        number(p)
    }
}

fn percent(p: &Vec<char>) -> (r: Option<u16>)
    ensures
        r == percent_payload(p@),
{
    match number(p) {
        Some(n) => if n <= 100 {
            Some(n)
        } else {
            None
        },
        None => None,
    }
}

fn slot_command(k: &Vec<char>, inv: Inverter, n: u16, t: [u8; 4]) -> (r: Option<Command>)
    ensures
        k@ == "ac_charge"@ ==> r == Some(Command::SetAcChargeTime(inv, n, t)),
        k@ != "ac_charge"@ && k@ == "ac_first"@ ==> r == Some(Command::SetAcFirstTime(inv, n, t)),
        k@ != "ac_charge"@ && k@ != "ac_first"@ && k@ == "charge_priority"@ ==> r == Some(
            Command::SetChargePriorityTime(inv, n, t),
        ),
        k@ != "ac_charge"@ && k@ != "ac_first"@ && k@ != "charge_priority"@ && k@
            == "forced_discharge"@ ==> r == Some(Command::SetForcedDischargeTime(inv, n, t)),
        k@ != "ac_charge"@ && k@ != "ac_first"@ && k@ != "charge_priority"@ && k@
            != "forced_discharge"@ ==> r is None,
{
    if is(k, "ac_charge") {
        Some(Command::SetAcChargeTime(inv, n, t))
    } else if is(k, "ac_first") {
        Some(Command::SetAcFirstTime(inv, n, t))
    } else if is(k, "charge_priority") {
        Some(Command::SetChargePriorityTime(inv, n, t))
    } else if is(k, "forced_discharge") {
        Some(Command::SetForcedDischargeTime(inv, n, t))
    } else {
        None
    }
}

fn is_slot_group(k: &Vec<char>) -> (r: bool)
    ensures
        r == (k@ == "ac_charge"@ || k@ == "ac_first"@ || k@ == "charge_priority"@ || k@
            == "forced_discharge"@),
{
    is(k, "ac_charge") || is(k, "ac_first") || is(k, "charge_priority") || is(
        k,
        "forced_discharge",
    )
}

/// The command that verb parts `verb` with payload `payload` ask of `inv`.
pub fn to_command(verb: &Vec<Vec<char>>, payload: &str, inv: Inverter) -> (r: Result<
    Command,
    RouteError,
>)
    ensures
        r == command_of(views(verb@), payload@, inv),
{
    let p = chars_of(payload);
    let ghost v = views(verb@);
    if verb.len() == 3 && is(&verb[0], "read") {
        assert(verb@[0]@ == v[0] && verb@[1]@ == v[1] && verb@[2]@ == v[2]);
        let n = match number(&verb[2]) {
            None => {
                return Err(RouteError::UnknownCommand);
            },
            Some(n) => n,
        };
        let k = &verb[1];
        if is(k, "inputs") {
            Ok(Command::ReadInputs(inv, n))
        } else if is(k, "input") {
            match count(&p) {
                Some(c) => Ok(Command::ReadInput(inv, n, c)),
                None => Err(RouteError::BadPayload),
            }
        } else if is(k, "hold") {
            match count(&p) {
                Some(c) => Ok(Command::ReadHold(inv, n, c)),
                None => Err(RouteError::BadPayload),
            }
        } else if is(k, "param") {
            Ok(Command::ReadParam(inv, n))
        } else if is(k, "ac_charge") {
            Ok(Command::ReadAcChargeTime(inv, n))
        } else if is(k, "ac_first") {
            Ok(Command::ReadAcFirstTime(inv, n))
        } else if is(k, "charge_priority") {
            Ok(Command::ReadChargePriorityTime(inv, n))
        } else if is(k, "forced_discharge") {
            Ok(Command::ReadForcedDischargeTime(inv, n))
        } else {
            Err(RouteError::UnknownCommand)
        }
    } else if verb.len() == 3 && is(&verb[0], "set") {
        assert(verb@[0]@ == v[0] && verb@[1]@ == v[1] && verb@[2]@ == v[2]);
        let n = match number(&verb[2]) {
            None => {
                return Err(RouteError::UnknownCommand);
            },
            Some(n) => n,
        };
        let k = &verb[1];
        if is(k, "hold") {
            match number(&p) {
                Some(x) => Ok(Command::SetHold(inv, n, x)),
                None => Err(RouteError::BadPayload),
            }
        } else if is(k, "param") {
            match number(&p) {
                Some(x) => Ok(Command::WriteParam(inv, n, x)),
                None => Err(RouteError::BadPayload),
            }
        } else if is_slot_group(k) {
            match time_range(&p) {
                Some(t) => {
                    proof {
                        lemma_array4(t, parse_time_range(p@)->Some_0);
                    }
                    match slot_command(k, inv, n, t) {
                        Some(c) => Ok(c),
                        None => Err(RouteError::UnknownCommand),
                    }
                },
                None => Err(RouteError::BadPayload),
            }
        } else {
            Err(RouteError::UnknownCommand)
        }
    } else if verb.len() == 2 && is(&verb[0], "set") {
        assert(verb@[0]@ == v[0] && verb@[1]@ == v[1]);
        let k = &verb[1];
        if is(k, "ac_charge") {
            match switch(&p) {
                Some(x) => Ok(Command::AcCharge(inv, x)),
                None => Err(RouteError::BadPayload),
            }
        } else if is(k, "charge_priority") {
            match switch(&p) {
                Some(x) => Ok(Command::ChargePriority(inv, x)),
                None => Err(RouteError::BadPayload),
            }
        } else if is(k, "forced_discharge") {
            match switch(&p) {
                Some(x) => Ok(Command::ForcedDischarge(inv, x)),
                None => Err(RouteError::BadPayload),
            }
        } else if is(k, "charge_rate_pct") {
            match percent(&p) {
                Some(x) => Ok(Command::ChargeRate(inv, x)),
                None => Err(RouteError::BadPayload),
            }
        } else if is(k, "discharge_rate_pct") {
            match percent(&p) {
                Some(x) => Ok(Command::DischargeRate(inv, x)),
                None => Err(RouteError::BadPayload),
            }
        } else if is(k, "ac_charge_rate_pct") {
            match percent(&p) {
                Some(x) => Ok(Command::AcChargeRate(inv, x)),
                None => Err(RouteError::BadPayload),
            }
        } else if is(k, "ac_charge_soc_limit_pct") {
            match percent(&p) {
                Some(x) => Ok(Command::AcChargeSocLimit(inv, x)),
                None => Err(RouteError::BadPayload),
            }
        } else if is(k, "discharge_cutoff_soc_limit_pct") {
            match percent(&p) {
                Some(x) => Ok(Command::DischargeCutoffSocLimit(inv, x)),
                None => Err(RouteError::BadPayload),
            }
        } else {
            Err(RouteError::UnknownCommand)
        }
    } else {
        proof {
            if verb@.len() >= 1 {
                assert(verb@[0]@ == v[0]);
            }
        }
        Err(RouteError::UnknownCommand)
    }
}

/// Where the outcome of the command on `topic` is published.
pub fn result_topic(topic: &str) -> (r: String)
    ensures
        r@ == topic@ + "/result"@,
{
    let mut r = String::from_str(topic);
    r.append("/result");
    r
}

/// The inverter's datalog spells `part`.
pub open spec fn has_datalog_text(part: Seq<char>, i: Inverter) -> bool {
    i.datalog matches Some(d) && forall|j: int| 0 <= j < 10 ==> d@[j] == part[j] as u8
}

pub open spec fn named_by(part: Seq<char>) -> spec_fn(Inverter) -> bool {
    |i: Inverter| has_datalog_text(part, i)
}

impl ConfigWrapper {
    /// The enabled inverters that a command topic addresses: all of them, or those with
    /// the named datalog.
    pub fn inverters_for_message(&self, topic: &str) -> (r: Result<Vec<Inverter>, RouteError>)
        ensures
            match command_parts(topic@, self.config.mqtt.namespace@) {
                None => r == Err::<Vec<Inverter>, RouteError>(RouteError::NotACommand),
                Some(parts) => if parts.len() == 0 || !is_target(parts[0]) {
                    r == Err::<Vec<Inverter>, RouteError>(RouteError::BadTarget)
                } else if parts[0] == "all"@ {
                    r matches Ok(v) && v@ == enabled_inverters_of(self.config.inverters@)
                } else {
                    r matches Ok(v) && v@ == enabled_inverters_of(self.config.inverters@).filter(
                        named_by(parts[0]),
                    )
                },
            },
    {
        let ct = match split_command_topic(topic, self.config.mqtt.namespace.as_str()) {
            Ok(ct) => ct,
            Err(e) => {
                return Err(e);
            },
        };
        let all = self.enabled_inverters();
        match ct.target {
            Target::All => Ok(all),
            Target::Datalog(d) => {
                let ghost part = command_parts(topic@, self.config.mqtt.namespace@)->Some_0[0];
                let ghost pred = named_by(part);
                assert(names_target(part, Target::Datalog(d)));
                assert(forall|j: int| 0 <= j < 10 ==> d@[j] == #[trigger] part[j] as u8);
                let mut r: Vec<Inverter> = Vec::new();
                let mut i: usize = 0;
                proof {
                    reveal(Seq::filter);
                }
                assert(all@.subrange(0, 0) =~= Seq::<Inverter>::empty());
                while i < all.len()
                    invariant
                        i <= all@.len(),
                        names_target(part, Target::Datalog(d)),
                        pred == named_by(part),
                        forall|j: int| 0 <= j < 10 ==> d@[j] == #[trigger] part[j] as u8,
                        r@ == all@.subrange(0, i as int).filter(pred),
                    decreases all@.len() - i,
                {
                    proof {
                        reveal(Seq::filter);
                        assert(all@.subrange(0, i + 1).drop_last() =~= all@.subrange(0, i as int));
                    }
                    let keep = match all[i].datalog {
                        Some(x) => x.same(&d),
                        None => false,
                    };
                    proof {
                        if let Some(x) = all@[i as int].datalog {
                            if keep {
                                assert(x@ == d@);
                                assert forall|j: int| 0 <= j < 10 implies x@[j] == part[j] as u8 by {
                                    assert(d@[j] == part[j] as u8);
                                }
                            } else {
                                assert(x@ != d@);
                                if forall|j: int| 0 <= j < 10 ==> x@[j] == part[j] as u8 {
                                    assert forall|j: int| 0 <= j < 10 implies x@[j] == d@[j] by {
                                        assert(x@[j] == part[j] as u8);
                                        assert(d@[j] == part[j] as u8);
                                    }
                                    assert(x@ =~= d@);
                                }
                            }
                        }
                        assert(has_datalog_text(part, all@[i as int]) == keep);
                        assert(pred(all@[i as int]) == keep);
                    }
                    if keep {
                        r.push(all[i].copied());
                    }
                    i = i + 1;
                }
                assert(all@.subrange(0, all@.len() as int) =~= all@);
                Ok(r)
            },
        }
    }
}

} // verus!
