//! TCP control flags: bit tests on the raw flag byte and their display.

use vstd::prelude::*;
use vstd::string::StringExecFns;

verus! {

/// A named TCP control flag.
#[derive(Clone, Copy, Debug, PartialEq, Eq, Structural)]
pub enum TcpFlag {
    Syn,
    Ack,
    Fin,
    Rst,
    Psh,
    Urg,
}

impl TcpFlag {
    /// The flag's bit in the raw flag byte.
    pub open spec fn mask_spec(self) -> u8 {
        match self {
            TcpFlag::Fin => 0x01,
            TcpFlag::Syn => 0x02,
            TcpFlag::Rst => 0x04,
            TcpFlag::Psh => 0x08,
            TcpFlag::Ack => 0x10,
            TcpFlag::Urg => 0x20,
        }
    }

    pub fn mask(&self) -> (r: u8)
        ensures
            r == self.mask_spec(),
    {
        match self {
            TcpFlag::Fin => 0x01,
            TcpFlag::Syn => 0x02,
            TcpFlag::Rst => 0x04,
            TcpFlag::Psh => 0x08,
            TcpFlag::Ack => 0x10,
            TcpFlag::Urg => 0x20,
        }
    }

    /// The flag's display name.
    pub open spec fn name_spec(self) -> Seq<char> {
        match self {
            TcpFlag::Syn => seq!['S', 'Y', 'N'],
            TcpFlag::Ack => seq!['A', 'C', 'K'],
            TcpFlag::Fin => seq!['F', 'I', 'N'],
            TcpFlag::Rst => seq!['R', 'S', 'T'],
            TcpFlag::Psh => seq!['P', 'S', 'H'],
            TcpFlag::Urg => seq!['U', 'R', 'G'],
        }
    }

    pub fn name(&self) -> (r: &'static str)
        ensures
            r@ == self.name_spec(),
    {
        proof {
            reveal_strlit("SYN");
            reveal_strlit("ACK");
            reveal_strlit("FIN");
            reveal_strlit("RST");
            reveal_strlit("PSH");
            reveal_strlit("URG");
        }
        match self {
            TcpFlag::Syn => "SYN",
            TcpFlag::Ack => "ACK",
            TcpFlag::Fin => "FIN",
            TcpFlag::Rst => "RST",
            TcpFlag::Psh => "PSH",
            TcpFlag::Urg => "URG",
        }
    }
}

/// Whether flag `f`'s bit is set in the raw flag byte; other bits do not matter.
pub open spec fn is_set(bits: u8, f: TcpFlag) -> bool {
    bits & f.mask_spec() != 0
}

/// The order in which flags are listed.
pub open spec fn display_order() -> Seq<TcpFlag> {
    seq![TcpFlag::Syn, TcpFlag::Ack, TcpFlag::Fin, TcpFlag::Rst, TcpFlag::Psh, TcpFlag::Urg]
}

/// The flags whose bits are set, in display order.
pub open spec fn active_flags_spec(bits: u8) -> Seq<TcpFlag> {
    display_order().filter(|f: TcpFlag| is_set(bits, f))
}

/// The names of `fs` joined by ", ".
pub open spec fn join_names(fs: Seq<TcpFlag>) -> Seq<char>
    decreases fs.len(),
{
    if fs.len() == 0 {
        seq![]
    } else if fs.len() == 1 {
        fs[0].name_spec()
    } else {
        join_names(fs.drop_last()) + seq![',', ' '] + fs.last().name_spec()
    }
}

/// The marker shown when no flag is set.
pub open spec fn no_flags_marker() -> Seq<char> {
    seq!['(', 'n', 'o', 'n', 'e', ')']
}

/// How a list of active flags is displayed.
pub open spec fn flags_text_spec(fs: Seq<TcpFlag>) -> Seq<char> {
    if fs.len() == 0 {
        no_flags_marker()
    } else {
        join_names(fs)
    }
}

/// The display of no flags differs from the display of any single flag.
pub proof fn lemma_no_flags_distinct(f: TcpFlag)
    ensures
        flags_text_spec(Seq::empty()) != flags_text_spec(seq![f]),
{
    assert(flags_text_spec(seq![f]).len() == 3);
}

/// Decodes the raw flag byte into the set flags, in display order. Each flag
/// is a test of its own bit, so reserved bits never hide a flag.
pub fn active_flags(bits: u8) -> (r: Vec<TcpFlag>)
    ensures
        r@ == active_flags_spec(bits),
        forall|f: TcpFlag| r@.contains(f) <==> is_set(bits, f),
{
    broadcast use vstd::seq_lib::group_filter_ensures, vstd::seq::group_seq_axioms;

    let order = [TcpFlag::Syn, TcpFlag::Ack, TcpFlag::Fin, TcpFlag::Rst, TcpFlag::Psh, TcpFlag::Urg];
    assert(order@ =~= display_order());
    let ghost pred = |f: TcpFlag| is_set(bits, f);
    let mut r: Vec<TcpFlag> = Vec::new();
    for i in 0..6
        invariant
            order@ == display_order(),
            pred == (|f: TcpFlag| is_set(bits, f)),
            r@ == order@.take(i as int).filter(pred),
    {
        let f = order[i];
        proof {
            assert(order@.take(i + 1) =~= order@.take(i as int).push(f));
            order@.take(i as int).lemma_filter_push(f, pred);
        }
        if bits & f.mask() != 0 {
            r.push(f);
        }
    }
    assert(order@.take(6) =~= order@);
    assert forall|f: TcpFlag| r@.contains(f) <==> is_set(bits, f) by {
        if is_set(bits, f) {
            let k = choose|k: int| 0 <= k < 6 && display_order()[k] == f;
            display_order().lemma_filter_contains(pred, k);
        }
        if r@.contains(f) {
            display_order().lemma_filter_contains_rev(pred, f);
        }
    }
    r
}

/// Displays a list of flags: their names comma-joined, or a marker of its own
/// when the list is empty.
pub fn flags_text(fs: &Vec<TcpFlag>) -> (r: String)
    ensures
        r@ == flags_text_spec(fs@),
{
    if fs.len() == 0 {
        proof {
            reveal_strlit("(none)");
        }
        return String::from_str("(none)");
    }
    let mut s = String::new();
    for i in 0..fs.len()
        invariant
            fs@.len() > 0,
            s@ == join_names(fs@.take(i as int)),
    {
        let name = fs[i].name();
        proof {
            assert(fs@.take(i + 1).drop_last() =~= fs@.take(i as int));
            reveal_strlit(", ");
        }
        if i > 0 {
            s.append(", ");
        }
        s.append(name);
        proof {
            if i == 0 {
                assert(s@ =~= join_names(fs@.take(1)));
            } else {
                assert(s@ =~= join_names(fs@.take(i + 1)));
            }
        }
    }
    assert(fs@.take(fs@.len() as int) =~= fs@);
    s
}

} // verus!
