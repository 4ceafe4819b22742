//! Development-only switches of performance builds.

use crate::text::{ascii_lower, lower, str_trim, trimmed};
use vstd::prelude::*;

verus! {

/// The environment variable with the comma-separated experiment selectors.
pub const PERF_EXPERIMENTS_ENV: &'static str = "MSB_PERF_EXPERIMENTS";

/// A performance experiment.
#[derive(Clone, Copy, Debug, PartialEq, Eq, Structural)]
pub enum PerfExperiment {
    MetricsResidency,
    NetworkOffload,
    NetworkMultiqueue,
    VcpuAccounting,
    BlockDescriptors,
    BlockCompletions,
    BlockFdatasync,
    BlockIoUring,
    BlockMultiqueue,
}

/// The pieces of a text between its commas.
pub open spec fn pieces(s: Seq<char>) -> Seq<Seq<char>>
    decreases s.len(),
{
    if s.len() == 0 {
        seq![Seq::empty()]
    } else {
        let before = pieces(s.drop_last());
        if s.last() == ',' {
            before.push(Seq::empty())
        } else {
            before.drop_last().push(before.last().push(s.last()))
        }
    }
}

/// The texts differ at most in the case of ASCII letters.
pub open spec fn same_but_for_case(a: Seq<char>, b: Seq<char>) -> bool {
    &&& a.len() == b.len()
    &&& forall|i: int| 0 <= i < a.len() ==> ascii_lower(#[trigger] a[i]) == ascii_lower(b[i])
}

/// Whether two texts differ at most in the case of ASCII letters.
pub fn eq_ignore_ascii_case(a: &str, b: &str) -> (r: bool)
    ensures
        r == same_but_for_case(a@, b@),
{
    let len: usize = a.unicode_len();
    if len != b.unicode_len() {
        return false;
    }
    let mut i: usize = 0;
    while i < len
        invariant
            i <= len,
            len == a@.len(),
            len == b@.len(),
            forall|j: int| 0 <= j < i ==> ascii_lower(#[trigger] a@[j]) == ascii_lower(b@[j]),
        decreases len - i,
    {
        if lower(a.get_char(i)) != lower(b.get_char(i)) {
            assert(ascii_lower(a@[i as int]) != ascii_lower(b@[i as int]));
            return false;
        }
        i = i + 1;
    }
    true
}

/// A selector without the minus sign that switches off, if it has one.
pub open spec fn selected_name(selector: Seq<char>) -> Seq<char> {
    if selector.len() > 0 && selector[0] == '-' {
        selector.skip(1)
    } else {
        selector
    }
}

/// The selector switches on what it names.
pub open spec fn switches_on(selector: Seq<char>) -> bool {
    !(selector.len() > 0 && selector[0] == '-')
}

impl PerfExperiment {
    /// The selector of the experiment alone.
    pub open spec fn spec_name(self) -> Seq<char> {
        match self {
            PerfExperiment::MetricsResidency => "metrics-residency"@,
            PerfExperiment::NetworkOffload => "network-offload"@,
            PerfExperiment::NetworkMultiqueue => "network-multiqueue"@,
            PerfExperiment::VcpuAccounting => "vcpu-accounting"@,
            PerfExperiment::BlockDescriptors => "block-descriptors"@,
            PerfExperiment::BlockCompletions => "block-completions"@,
            PerfExperiment::BlockFdatasync => "block-fdatasync"@,
            PerfExperiment::BlockIoUring => "block-io-uring"@,
            PerfExperiment::BlockMultiqueue => "block-multiqueue"@,
        }
    }

    /// The selector of the experiment's group.
    pub open spec fn spec_group(self) -> Seq<char> {
        match self {
            PerfExperiment::MetricsResidency => "metrics"@,
            PerfExperiment::NetworkOffload => "network"@,
            PerfExperiment::NetworkMultiqueue => "network"@,
            PerfExperiment::VcpuAccounting => "vcpu"@,
            PerfExperiment::BlockDescriptors => "block"@,
            PerfExperiment::BlockCompletions => "block"@,
            PerfExperiment::BlockFdatasync => "block"@,
            PerfExperiment::BlockIoUring => "block"@,
            PerfExperiment::BlockMultiqueue => "block"@,
        }
    }

    /// The selector speaks of the experiment: by its name, its group or as one of all.
    pub open spec fn addressed(self, selector: Seq<char>) -> bool {
        let name = selected_name(selector);
        ||| same_but_for_case(name, "all"@)
        ||| same_but_for_case(name, self.spec_group())
        ||| same_but_for_case(name, self.spec_name())
    }

    /// What selectors say of the experiment: the last that speaks of it decides.
    pub open spec fn chosen_by(self, selectors: Seq<Seq<char>>) -> bool
        decreases selectors.len(),
    {
        if selectors.len() == 0 {
            false
        } else {
            let selector = trimmed(selectors.last());
            if self.addressed(selector) {
                switches_on(selector)
            } else {
                self.chosen_by(selectors.drop_last())
            }
        }
    }

    /// Stable selector of the experiment.
    pub fn name(self) -> (r: &'static str)
        ensures
            r@ == self.spec_name(),
    {
        match self {
            PerfExperiment::MetricsResidency => "metrics-residency",
            PerfExperiment::NetworkOffload => "network-offload",
            PerfExperiment::NetworkMultiqueue => "network-multiqueue",
            PerfExperiment::VcpuAccounting => "vcpu-accounting",
            PerfExperiment::BlockDescriptors => "block-descriptors",
            PerfExperiment::BlockCompletions => "block-completions",
            PerfExperiment::BlockFdatasync => "block-fdatasync",
            PerfExperiment::BlockIoUring => "block-io-uring",
            PerfExperiment::BlockMultiqueue => "block-multiqueue",
        }
    }

    /// Selector that enables the experiment as part of a group.
    pub fn group(self) -> (r: &'static str)
        ensures
            r@ == self.spec_group(),
    {
        match self {
            PerfExperiment::MetricsResidency => "metrics",
            PerfExperiment::NetworkOffload => "network",
            PerfExperiment::NetworkMultiqueue => "network",
            PerfExperiment::VcpuAccounting => "vcpu",
            _ => "block",
        }
    }

    fn is_addressed(self, name: &str) -> (r: bool)
        ensures
            r == (same_but_for_case(name@, "all"@) || same_but_for_case(name@, self.spec_group())
                || same_but_for_case(name@, self.spec_name())),
    {
        eq_ignore_ascii_case(name, "all") || eq_ignore_ascii_case(name, self.group())
            || eq_ignore_ascii_case(name, self.name())
    }

    fn after_selector(self, raw: &str, enabled: bool) -> (r: bool)
        ensures
            r == if self.addressed(trimmed(raw@)) {
                switches_on(trimmed(raw@))
            } else {
                enabled
            },
    {
        let selector: &str = str_trim(raw);
        let len: usize = selector.unicode_len();
        if len > 0 && selector.get_char(0) == '-' {
            let name: &str = selector.substring_char(1, len);
            assert(name@ =~= selected_name(selector@));
            if self.is_addressed(name) {
                false
            } else {
                enabled
            }
        } else if self.is_addressed(selector) {
            true
        } else {
            enabled
        }
    }

    /// Whether the experiment is enabled by comma-separated selectors.
    pub fn enabled_in(self, raw: &str) -> (r: bool)
        ensures
            r == self.chosen_by(pieces(raw@)),
    {
        let len: usize = raw.unicode_len();
        let mut enabled: bool = false;
        let mut start: usize = 0;
        let mut i: usize = 0;
        let ghost mut before: Seq<Seq<char>> = Seq::empty();
        proof {
            assert(raw@.take(0) =~= Seq::empty());
            assert(raw@.subrange(0, 0) =~= Seq::empty());
            assert(pieces(raw@.take(0)) =~= before.push(raw@.subrange(0, 0)));
        }
        while i < len
            invariant
                start <= i <= len,
                len == raw@.len(),
                pieces(raw@.take(i as int)) == before.push(raw@.subrange(start as int, i as int)),
                enabled == self.chosen_by(before),
            decreases len - i,
        {
            let ghost piece = raw@.subrange(start as int, i as int);
            assert(raw@.take(i + 1).drop_last() =~= raw@.take(i as int));
            assert(raw@.take(i + 1).last() == raw@[i as int]);
            if raw.get_char(i) == ',' {
                enabled = self.after_selector(raw.substring_char(start, i), enabled);
                proof {
                    assert(before.push(piece).drop_last() =~= before);
                    before = before.push(piece);
                    assert(raw@.subrange(i + 1, i + 1) =~= Seq::empty());
                }
                start = i + 1;
            } else {
                assert(before.push(piece).drop_last() =~= before);
                assert(raw@.subrange(start as int, i + 1) =~= piece.push(raw@[i as int]));
            }
            i = i + 1;
        }
        let ghost piece = raw@.subrange(start as int, len as int);
        assert(raw@.take(len as int) =~= raw@);
        assert(before.push(piece).drop_last() =~= before);
        self.after_selector(raw.substring_char(start, len), enabled)
    }
}

/// A selector that speaks of an experiment overrides all before it, and one that does not changes
/// nothing.
pub proof fn last_word_decides(
    experiment: PerfExperiment,
    selectors: Seq<Seq<char>>,
    selector: Seq<char>,
)
    ensures
        experiment.addressed(trimmed(selector)) ==> experiment.chosen_by(selectors.push(selector))
            == switches_on(trimmed(selector)),
        !experiment.addressed(trimmed(selector)) ==> experiment.chosen_by(selectors.push(selector))
            == experiment.chosen_by(selectors),
{
    assert(selectors.push(selector).drop_last() =~= selectors);
}

/// Two words are the same but for case where every letter is, once it is made small.
pub proof fn words_are_held_letter_by_letter(
    a: &str,
    b: &str,
    r: bool,
    i: int,
    x: char,
    y: char,
)
    requires
        call_ensures(eq_ignore_ascii_case, (a, b), r),
        0 <= i < a@.len(),
        i < b@.len(),
        call_ensures(crate::text::lower, (a@[i],), x),
        call_ensures(crate::text::lower, (b@[i],), y),
    ensures
        a@ == b@ ==> r,
        r ==> a@.len() == b@.len() && x == y,
        !r && a@.len() == b@.len() ==> exists|k: int|
            0 <= k < a@.len() && ascii_lower(#[trigger] a@[k]) != ascii_lower(b@[k]),
{
}

/// An experiment is named by its group and what it tries, with a hyphen between them.
pub proof fn experiments_are_named_by_their_group(
    experiment: PerfExperiment,
    name: &'static str,
    group: &'static str,
)
    requires
        call_ensures(PerfExperiment::name, (experiment,), name),
        call_ensures(PerfExperiment::group, (experiment,), group),
    ensures
        group@.push('-').is_prefix_of(name@),
{
    reveal_strlit("metrics-residency");
    reveal_strlit("network-offload");
    reveal_strlit("network-multiqueue");
    reveal_strlit("vcpu-accounting");
    reveal_strlit("block-descriptors");
    reveal_strlit("block-completions");
    reveal_strlit("block-fdatasync");
    reveal_strlit("block-io-uring");
    reveal_strlit("block-multiqueue");
    reveal_strlit("metrics");
    reveal_strlit("network");
    reveal_strlit("vcpu");
    reveal_strlit("block");
    assert(group@.push('-') =~= name@.subrange(0, group@.len() as int + 1));
}

/// Different experiments have different names.
pub proof fn names_tell_experiments_apart(
    a: PerfExperiment,
    b: PerfExperiment,
    x: &'static str,
    y: &'static str,
)
    requires
        call_ensures(PerfExperiment::name, (a,), x),
        call_ensures(PerfExperiment::name, (b,), y),
        x@ == y@,
    ensures
        a == b,
{
    reveal_strlit("metrics-residency");
    reveal_strlit("network-offload");
    reveal_strlit("network-multiqueue");
    reveal_strlit("vcpu-accounting");
    reveal_strlit("block-descriptors");
    reveal_strlit("block-completions");
    reveal_strlit("block-fdatasync");
    reveal_strlit("block-io-uring");
    reveal_strlit("block-multiqueue");
    let (s, t) = (x@, y@);
    assert(s.len() == t.len() && s[0] == t[0] && s[6] == t[6]);
    match a {
        PerfExperiment::MetricsResidency => {
            assert(s.len() == 17 && s[0] == 'm');
        },
        PerfExperiment::NetworkOffload => {
            assert(s.len() == 15 && s[0] == 'n');
        },
        PerfExperiment::NetworkMultiqueue => {
            assert(s.len() == 18);
        },
        PerfExperiment::VcpuAccounting => {
            assert(s.len() == 15 && s[0] == 'v');
        },
        PerfExperiment::BlockDescriptors => {
            assert(s.len() == 17 && s[6] == 'd');
        },
        PerfExperiment::BlockCompletions => {
            assert(s.len() == 17 && s[6] == 'c');
        },
        PerfExperiment::BlockFdatasync => {
            assert(s.len() == 15 && s[0] == 'b');
        },
        PerfExperiment::BlockIoUring => {
            assert(s.len() == 14);
        },
        PerfExperiment::BlockMultiqueue => {
            assert(s.len() == 16);
        },
    }
    assert(t[0] == 'm' || t[0] == 'n' || t[0] == 'v' || t[0] == 'b');
}

/// A word behind the last comma decides where it names the experiment, its group or all of them:
/// it switches on, unless a hyphen stands before the name. Any other word changes nothing.
pub proof fn words_behind_a_comma_decide(
    experiment: PerfExperiment,
    front: &str,
    word: &str,
    whole: &str,
    before: bool,
    r: bool,
    name: &'static str,
    group: &'static str,
    bare: &str,
    named: bool,
    grouped: bool,
    all: bool,
)
    requires
        whole@ == front@.push(',') + word@,
        !word@.contains(','),
        trimmed(word@) == bare@ || trimmed(word@) == seq!['-'] + bare@ && bare@.len() > 0,
        bare@.len() > 0 ==> bare@[0] != '-',
        call_ensures(PerfExperiment::enabled_in, (experiment, front), before),
        call_ensures(PerfExperiment::enabled_in, (experiment, whole), r),
        call_ensures(PerfExperiment::name, (experiment,), name),
        call_ensures(PerfExperiment::group, (experiment,), group),
        call_ensures(eq_ignore_ascii_case, (bare, name), named),
        call_ensures(eq_ignore_ascii_case, (bare, group), grouped),
        call_ensures(eq_ignore_ascii_case, (bare, "all"), all),
    ensures
        named || grouped || all ==> r == (trimmed(word@) == bare@),
        !named && !grouped && !all ==> r == before,
{
    lemma_last_piece(front@, word@);
    assert(whole@ =~= front@.push(',') + word@);
    let chosen = pieces(front@).push(word@);
    assert(chosen.drop_last() =~= pieces(front@));
    assert(chosen.last() == word@);
    let selector = trimmed(word@);
    if selector == bare@ {
        assert(selected_name(selector) == bare@);
    } else {
        assert(selector.skip(1) =~= bare@);
        assert(selector[0] == '-');
    }
}

proof fn lemma_last_piece(front: Seq<char>, word: Seq<char>)
    requires
        !word.contains(','),
    ensures
        pieces(front.push(',') + word) == pieces(front).push(word),
    decreases word.len(),
{
    let whole = front.push(',') + word;
    if word.len() == 0 {
        assert(whole.drop_last() =~= front);
        assert(whole.last() == ',');
        assert(word =~= Seq::empty());
    } else {
        let shorter = word.drop_last();
        assert(!shorter.contains(',')) by {
            if shorter.contains(',') {
                let k = choose|k: int| 0 <= k < shorter.len() && shorter[k] == ',';
                assert(word[k] == ',');
            }
        }
        lemma_last_piece(front, shorter);
        assert(whole.drop_last() =~= front.push(',') + shorter);
        assert(whole.last() == word[word.len() - 1]);
        assert(whole.last() != ',');
        let before = pieces(front).push(shorter);
        assert(before.drop_last() =~= pieces(front));
        assert(shorter.push(word.last()) =~= word);
    }
}

/// One word alone is decided like a word behind a comma, where nothing was switched on before.
pub proof fn one_word_decides_alone(
    experiment: PerfExperiment,
    raw: &str,
    r: bool,
    name: &'static str,
    group: &'static str,
    bare: &str,
    named: bool,
    grouped: bool,
    all: bool,
)
    requires
        !raw@.contains(','),
        trimmed(raw@) == bare@ || trimmed(raw@) == seq!['-'] + bare@ && bare@.len() > 0,
        bare@.len() > 0 ==> bare@[0] != '-',
        call_ensures(PerfExperiment::enabled_in, (experiment, raw), r),
        call_ensures(PerfExperiment::name, (experiment,), name),
        call_ensures(PerfExperiment::group, (experiment,), group),
        call_ensures(eq_ignore_ascii_case, (bare, name), named),
        call_ensures(eq_ignore_ascii_case, (bare, group), grouped),
        call_ensures(eq_ignore_ascii_case, (bare, "all"), all),
    ensures
        r <==> (named || grouped || all) && trimmed(raw@) == bare@,
{
    lemma_one_piece(raw@);
    let chosen = seq![raw@];
    assert(chosen.last() == raw@);
    assert(chosen.drop_last() =~= Seq::empty());
    assert(!experiment.chosen_by(chosen.drop_last()));
    let selector = trimmed(raw@);
    if selector == bare@ {
        assert(selected_name(selector) == bare@);
    } else {
        assert(selector.skip(1) =~= bare@);
        assert(selector[0] == '-');
    }
}

proof fn lemma_one_piece(s: Seq<char>)
    requires
        !s.contains(','),
    ensures
        pieces(s) == seq![s],
    decreases s.len(),
{
    if s.len() == 0 {
        assert(s =~= Seq::empty());
    } else {
        let shorter = s.drop_last();
        assert(!shorter.contains(',')) by {
            if shorter.contains(',') {
                let k = choose|k: int| 0 <= k < shorter.len() && shorter[k] == ',';
                assert(s[k] == ',');
            }
        }
        lemma_one_piece(shorter);
        assert(s[s.len() - 1] != ',');
        assert(shorter.push(s.last()) =~= s);
        let before = seq![shorter];
        assert(before.drop_last() =~= Seq::empty());
        assert(before.drop_last().push(s) =~= seq![s]);
    }
}

} // verus!
