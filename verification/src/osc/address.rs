//! The addresses of the outgoing parameters.
//!
//! An address is the configured prefix and a parameter's name joined by a
//! separator. Wherever that leaves separators in a row, one of them stays.

use vstd::prelude::*;

use crate::settings::OSCSettings;

verus! {

/// The path separator of an address.
pub const SEPARATOR: char = '/';

/// Whether position `i` of `s` holds a separator that directly follows
/// another separator.
pub open spec fn is_repeated_separator(s: Seq<char>, i: int) -> bool {
    0 < i < s.len() && s[i] == SEPARATOR && s[i - 1] == SEPARATOR
}

/// `s` with every run of separators cut down to its first: each separator
/// that directly follows another is left out.
pub open spec fn collapse_separators(s: Seq<char>) -> Seq<char>
    decreases s.len(),
{
    if s.len() == 0 {
        s
    } else if is_repeated_separator(s, s.len() - 1) {
        collapse_separators(s.drop_last())
    } else {
        collapse_separators(s.drop_last()).push(s.last())
    }
}

/// The address of parameter `param` under `prefix`: the two joined by a
/// separator, runs of separators collapsed.
pub open spec fn address_of(prefix: Seq<char>, param: Seq<char>) -> Seq<char> {
    collapse_separators(prefix + seq![SEPARATOR] + param)
}

/// Appends one character to a string, by `String::push`: the string's
/// characters afterwards are those before, followed by `c`.
#[verifier::external_body]
fn push_char(s: &mut String, c: char)
    ensures
        final(s)@ == old(s)@.push(c),
{
    s.push(c)
}

/// Cuts every run of separators in `s` down to one.
pub fn collapse(s: &str) -> (r: String)
    ensures
        r@ == collapse_separators(s@),
{
    let mut out = String::new();
    let mut after_separator: bool = false;
    for c in it: s.chars()
        invariant
            it.seq() == s@,
            out@ == collapse_separators(s@.take(it.index() as int)),
            after_separator == (it.index() > 0 && s@[it.index() - 1] == SEPARATOR),
    {
        let repeated: bool = c == SEPARATOR && after_separator;
        proof {
            let seen = s@.take(it.index() + 1);
            assert(seen.drop_last() =~= s@.take(it.index() as int));
            assert(repeated == is_repeated_separator(seen, seen.len() - 1));
        }
        if !repeated {
            push_char(&mut out, c);
        }
        after_separator = c == SEPARATOR;
    }
    assert(s@.take(s@.len() as int) =~= s@);
    out
}

/// The address of parameter `param` under the configured prefix.
pub fn format_address(osc_settings: &OSCSettings, param: &str) -> (address: String)
    ensures
        address@ == address_of(osc_settings.address_prefix@, param@),
{
    let mut joined = String::from_str(osc_settings.address_prefix.as_str());
    proof {
        reveal_strlit("/");
    }
    joined.append("/");
    joined.append(param);
    assert(joined@ =~= osc_settings.address_prefix@ + seq![SEPARATOR] + param@);
    collapse(joined.as_str())
}

/// The address of every outgoing parameter. Built once from the settings.
#[derive(Debug, Clone, PartialEq)]
pub struct OSCAddresses {
    pub beat_toggle: String,
    pub beat_pulse: String,
    pub int_hr: String,
    pub float_hr: String,
    pub connected: String,
    pub latest_rr: String,
}

/// The addresses as character sequences.
pub struct AddressesView {
    pub beat_toggle: Seq<char>,
    pub beat_pulse: Seq<char>,
    pub int_hr: Seq<char>,
    pub float_hr: Seq<char>,
    pub connected: Seq<char>,
    pub latest_rr: Seq<char>,
}

impl View for OSCAddresses {
    type V = AddressesView;

    open spec fn view(&self) -> AddressesView {
        AddressesView {
            beat_toggle: self.beat_toggle@,
            beat_pulse: self.beat_pulse@,
            int_hr: self.int_hr@,
            float_hr: self.float_hr@,
            connected: self.connected@,
            latest_rr: self.latest_rr@,
        }
    }
}

/// The addresses that `osc_settings` asks for.
pub open spec fn addresses_of(osc_settings: OSCSettings) -> AddressesView {
    let prefix = osc_settings.address_prefix@;
    AddressesView {
        beat_toggle: address_of(prefix, osc_settings.param_beat_toggle@),
        beat_pulse: address_of(prefix, osc_settings.param_beat_pulse@),
        int_hr: address_of(prefix, osc_settings.param_bpm_int@),
        float_hr: address_of(prefix, osc_settings.param_bpm_float@),
        connected: address_of(prefix, osc_settings.param_hrm_connected@),
        latest_rr: address_of(prefix, osc_settings.param_latest_rr_int@),
    }
}

impl OSCAddresses {
    /// Forms the address of each parameter under the configured prefix.
    pub fn new(osc_settings: &OSCSettings) -> (addresses: OSCAddresses)
        ensures
            addresses@ == addresses_of(*osc_settings),
    {
        OSCAddresses {
            beat_toggle: format_address(osc_settings, osc_settings.param_beat_toggle.as_str()),
            beat_pulse: format_address(osc_settings, osc_settings.param_beat_pulse.as_str()),
            int_hr: format_address(osc_settings, osc_settings.param_bpm_int.as_str()),
            float_hr: format_address(osc_settings, osc_settings.param_bpm_float.as_str()),
            connected: format_address(osc_settings, osc_settings.param_hrm_connected.as_str()),
            latest_rr: format_address(osc_settings, osc_settings.param_latest_rr_int.as_str()),
        }
    }
}

/// No position of `s` holds a separator right after another.
pub open spec fn no_repeated_separator(s: Seq<char>) -> bool {
    forall|i: int| !is_repeated_separator(s, i)
}

/// Collapsing only ever drops characters, and keeps the last one unless it is
/// a repeated separator.
proof fn lemma_collapse_shape(s: Seq<char>)
    ensures
        collapse_separators(s).len() <= s.len(),
        s.len() > 0 ==> collapse_separators(s).len() > 0 && collapse_separators(s).last()
            == s.last(),
    decreases s.len(),
{
    if s.len() > 0 {
        lemma_collapse_shape(s.drop_last());
    }
}

/// A collapsed sequence holds no separator right after another.
pub proof fn lemma_collapse_leaves_no_repeat(s: Seq<char>)
    ensures
        no_repeated_separator(collapse_separators(s)),
    decreases s.len(),
{
    if s.len() > 0 {
        let init = s.drop_last();
        lemma_collapse_leaves_no_repeat(init);
        lemma_collapse_shape(init);
        let out = collapse_separators(s);
        assert forall|i: int| !is_repeated_separator(out, i) by {
            if is_repeated_separator(out, i) {
                if i < collapse_separators(init).len() {
                    assert(is_repeated_separator(collapse_separators(init), i));
                }
            }
        }
    }
}

/// Collapsing changes nothing in a sequence that holds no separator right
/// after another.
pub proof fn lemma_collapse_keeps_clean(s: Seq<char>)
    requires
        no_repeated_separator(s),
    ensures
        collapse_separators(s) == s,
    decreases s.len(),
{
    if s.len() > 0 {
        let init = s.drop_last();
        assert forall|i: int| !is_repeated_separator(init, i) by {
            assert(!is_repeated_separator(s, i));
        }
        lemma_collapse_keeps_clean(init);
        assert(!is_repeated_separator(s, s.len() - 1));
        assert(init.push(s.last()) =~= s);
    }
}

/// Collapsing twice is collapsing once.
pub proof fn lemma_collapse_idempotent(s: Seq<char>)
    ensures
        collapse_separators(collapse_separators(s)) == collapse_separators(s),
{
    lemma_collapse_leaves_no_repeat(s);
    lemma_collapse_keeps_clean(collapse_separators(s));
}

/// Behind a separator, one more separator makes no difference to what
/// follows.
proof fn lemma_collapse_extra_separator(head: Seq<char>, tail: Seq<char>)
    requires
        head.len() > 0,
        head.last() == SEPARATOR,
    ensures
        collapse_separators(head + seq![SEPARATOR] + tail) == collapse_separators(head + tail),
    decreases tail.len(),
{
    let long = head + seq![SEPARATOR] + tail;
    let short = head + tail;
    if tail.len() == 0 {
        assert(long.drop_last() =~= head);
        assert(short =~= head);
        assert(is_repeated_separator(long, long.len() - 1));
    } else {
        lemma_collapse_extra_separator(head, tail.drop_last());
        assert(long.drop_last() =~= head + seq![SEPARATOR] + tail.drop_last());
        assert(short.drop_last() =~= head + tail.drop_last());
        assert(long.last() == short.last());
        assert(long[long.len() - 2] == short[short.len() - 2]);
    }
}

/// Under a prefix that ends in a separator, the address is prefix and
/// parameter put together with their runs of separators collapsed: the
/// separator that joins them adds nothing.
pub proof fn lemma_prefix_with_trailing_separator(prefix: Seq<char>, param: Seq<char>)
    requires
        prefix.len() > 0,
        prefix.last() == SEPARATOR,
    ensures
        address_of(prefix, param) == collapse_separators(prefix + param),
        no_repeated_separator(prefix + param) ==> address_of(prefix, param) == prefix + param,
{
    lemma_collapse_extra_separator(prefix, param);
    if no_repeated_separator(prefix + param) {
        lemma_collapse_keeps_clean(prefix + param);
    }
}

} // verus!
