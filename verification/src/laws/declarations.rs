//! DOCTYPE declarations, in every way in which they may be written, and cut short.

use crate::chars::{lowercase_all, space, visible};
use crate::laws::doctypes::doctype_name_is_lowered;
use crate::laws::markup::all_space;
use crate::laws::openings::is_first_close;
use crate::laws::stream::{loud_step, quiet_step, replaying_is_unreading, rested};
use crate::laws::tags::at_rest;
use crate::laws::text::visible_all;
use crate::model::runs::tokens;
use crate::model::{blank_doctype, step, Machine};
use crate::types::{DoctypeView, State, TokenView};
use vstd::prelude::*;

verus! {

/// The places in a DOCTYPE where space may stand.
pub enum Slot {
    /// Behind the name.
    AfterName,
    /// Behind `PUBLIC`.
    BeforePublic,
    /// Behind the public identifier.
    AfterPublic,
    /// Behind `SYSTEM`.
    BeforeSystem,
    /// Behind the system identifier.
    AfterSystem,
}

/// Whether the machine is at such a place.
pub open spec fn is_at(m: Machine, slot: Slot) -> bool {
    at_rest(m) && match slot {
        Slot::AfterName => m.state == State::DoctypeName || m.state == State::AfterDoctypeName,
        Slot::BeforePublic => m.state == State::AfterDoctypePublicKeyword || m.state
            == State::BeforeDoctypePublicId,
        Slot::AfterPublic => m.state == State::AfterDoctypePublicId || m.state
            == State::BetweenDoctypePublicAndSystemIds,
        Slot::BeforeSystem => m.state == State::AfterDoctypeSystemKeyword || m.state
            == State::BeforeDoctypeSystemId,
        Slot::AfterSystem => m.state == State::AfterDoctypeSystemId,
    }
}

/// The machine behind the space at such a place.
proof fn lemma_slot_space(m: Machine, slot: Slot, to: int) -> (n: Machine)
    requires
        is_at(m, slot),
        m.pos <= to <= m.input.len(),
        all_space(m.input, m.pos, to),
    ensures
        is_at(n, slot),
        n == (Machine { pos: to, state: n.state, ..m }),
        m.pos < to ==> n.state != State::DoctypeName,
        n.pos == m.pos ==> n == m,
        tokens(m) == tokens(n),
    decreases to - m.pos,
{
    if m.pos == to {
        m
    } else {
        assert(space(m.input[m.pos]));
        quiet_step(m);
        let k = step(m).0;
        let n = lemma_slot_space(k, slot, to);
        n
    }
}

/// The machine behind a DOCTYPE that ends at `i`, with `>` or with the input.
pub open spec fn behind_doctype(m: Machine, i: int) -> Machine {
    Machine {
        pos: if i < m.input.len() {
            i + 1
        } else {
            i
        },
        state: State::Data,
        doctype: blank_doctype(),
        at_end: i == m.input.len(),
        ..m
    }
}

/// `d`, which asks for quirks mode where `quirks` is set.
pub open spec fn quirked(d: DoctypeView, quirks: bool) -> DoctypeView {
    DoctypeView { force_quirks: d.force_quirks || quirks, ..d }
}

/// At each place `>` ends the DOCTYPE, any space before it notwithstanding. It asks for
/// quirks mode where a keyword has announced an identifier that is missing.
pub proof fn doctype_ends_at_greater_than(m: Machine, slot: Slot, i: int)
    requires
        is_at(m, slot),
        m.pos <= i < m.input.len(),
        all_space(m.input, m.pos, i),
        m.input[i] == '>',
    ensures
        tokens(m) == seq![
            TokenView::Doctype(
                quirked(m.doctype, slot is BeforePublic || slot is BeforeSystem),
            ),
        ] + tokens(behind_doctype(m, i)),
{
    let n = lemma_slot_space(m, slot, i);
    loud_step(n);
    assert(step(n).0 == behind_doctype(m, i));
}

/// What is skipped of a DOCTYPE extends to the first `>`, or to the end of the input.
proof fn lemma_skipped(m: Machine, i: int)
    requires
        at_rest(m),
        m.state == State::BogusDoctype,
        is_first_close(m.input, m.pos, i),
    ensures
        tokens(m) == seq![TokenView::Doctype(m.doctype)] + tokens(behind_doctype(m, i)),
    decreases i - m.pos,
{
    if m.pos < i {
        assert(m.input[m.pos] != '>');
        quiet_step(m);
        lemma_skipped(step(m).0, i);
    } else {
        loud_step(m);
        assert(step(m).0 == behind_doctype(m, i));
    }
}

/// Whether `k` holds what does not belong at a place: neither space nor `>`, nor a quote where
/// an identifier may stand, nor, behind the name, a keyword.
pub open spec fn is_misplaced(m: Machine, slot: Slot, k: int) -> bool {
    let c = m.input[k];
    &&& !space(c)
    &&& c != '>'
    &&& slot is AfterSystem || slot is AfterName || (c != '"' && c != '\'')
    &&& slot is AfterName ==> !m.spells_at(k, "PUBLIC"@) && !m.spells_at(k, "SYSTEM"@)
}

/// What does not belong in a DOCTYPE is skipped, with everything behind it up to the first
/// `>`. The DOCTYPE asks for quirks mode then, unless that comes behind the system
/// identifier.
pub proof fn misplaced_in_doctype_is_skipped(m: Machine, slot: Slot, k: int, i: int)
    requires
        is_at(m, slot),
        m.pos <= k < m.input.len(),
        m.state == State::DoctypeName ==> m.pos < k,
        all_space(m.input, m.pos, k),
        is_misplaced(m, slot, k),
        is_first_close(m.input, k, i),
    ensures
        tokens(m) == seq![
            TokenView::Doctype(quirked(m.doctype, !(slot is AfterSystem))),
        ] + tokens(behind_doctype(m, i)),
{
    let n = lemma_slot_space(m, slot, k);
    let b = step(n).0;
    quiet_step(n);
    replaying_is_unreading(b);
    let r = rested(b);
    lemma_skipped(r, i);
    assert(behind_doctype(r, i) == behind_doctype(m, i));
}

/// The keyword `PUBLIC` or `SYSTEM`, in any case, announces an identifier.
pub proof fn keyword_is_read(m: Machine, k: int, public: bool) -> (n: Machine)
    requires
        is_at(m, Slot::AfterName),
        m.pos <= k < m.input.len(),
        m.state == State::DoctypeName ==> m.pos < k,
        all_space(m.input, m.pos, k),
        public ==> m.spells_at(k, "PUBLIC"@),
        !public ==> m.spells_at(k, "SYSTEM"@),
    ensures
        is_at(
            n,
            if public {
                Slot::BeforePublic
            } else {
                Slot::BeforeSystem
            },
        ),
        n == (Machine { pos: k + 6, state: n.state, ..m }),
        tokens(m) == tokens(n),
{
    let r = lemma_slot_space(m, Slot::AfterName, k);
    reveal_strlit("PUBLIC");
    reveal_strlit("SYSTEM");
    let word = m.input.subrange(k, k + 6);
    assert(word[0] == m.input[k]);
    if public {
        assert(lowercase_all(word)[0] == lowercase_all("PUBLIC"@)[0]);
    } else {
        assert(lowercase_all(word)[0] == lowercase_all("SYSTEM"@)[0]);
        assert(lowercase_all("PUBLIC"@)[0] != lowercase_all("SYSTEM"@)[0]);
    }
    quiet_step(r);
    step(r).0
}

/// A DOCTYPE with its public or its system identifier set.
pub open spec fn identified(d: DoctypeView, public: bool, id: Seq<char>) -> DoctypeView {
    if public {
        DoctypeView { public_id: Some(id), ..d }
    } else {
        DoctypeView { system_id: Some(id), ..d }
    }
}

/// The state in which an identifier is read.
spec fn state_in_id(public: bool, quote: char) -> State {
    if public {
        if quote == '"' {
            State::DoctypePublicIdDoubleQuoted
        } else {
            State::DoctypePublicIdSingleQuoted
        }
    } else if quote == '"' {
        State::DoctypeSystemIdDoubleQuoted
    } else {
        State::DoctypeSystemIdSingleQuoted
    }
}

/// An identifier is read as it stands, with NUL as U+FFFD, up to `to`.
proof fn lemma_id(m: Machine, public: bool, quote: char, id: Seq<char>, to: int)
    requires
        at_rest(m),
        quote == '"' || quote == '\'',
        m.state == state_in_id(public, quote),
        m.doctype == identified(m.doctype, public, id),
        m.pos <= to <= m.input.len(),
        forall|i: int| m.pos <= i < to ==> #[trigger] m.input[i] != quote && m.input[i] != '>',
    ensures
        tokens(m) == tokens(
            Machine {
                pos: to,
                doctype: identified(
                    m.doctype,
                    public,
                    id + visible_all(m.input.subrange(m.pos, to)),
                ),
                ..m
            },
        ),
    decreases to - m.pos,
{
    let all = id + visible_all(m.input.subrange(m.pos, to));
    if m.pos == to {
        assert(all =~= id);
    } else {
        let c = m.input[m.pos];
        assert(c != quote && c != '>');
        let n = step(m).0;
        quiet_step(m);
        let longer = id.push(visible(c));
        assert(n.doctype == identified(m.doctype, public, longer));
        lemma_id(n, public, quote, longer, to);
        assert(longer + visible_all(m.input.subrange(n.pos, to)) =~= all);
    }
}

/// The machine in an identifier that a quote opens behind any space.
proof fn lemma_id_opened(m: Machine, slot: Slot, q: int, quote: char) -> (n: Machine)
    requires
        is_at(m, slot),
        slot is BeforePublic || slot is AfterPublic || slot is BeforeSystem,
        m.pos <= q < m.input.len(),
        all_space(m.input, m.pos, q),
        quote == '"' || quote == '\'',
        m.input[q] == quote,
    ensures
        n == (Machine {
            pos: q + 1,
            state: state_in_id(slot is BeforePublic, quote),
            doctype: identified(m.doctype, slot is BeforePublic, seq![]),
            ..m
        }),
        tokens(m) == tokens(n),
{
    let r = lemma_slot_space(m, slot, q);
    quiet_step(r);
    step(r).0
}

/// An identifier stands between two quotes of either kind, any space before it
/// notwithstanding, and is read as it stands, with NUL as U+FFFD.
pub proof fn identifier_is_read(m: Machine, slot: Slot, q: int, quote: char, to: int) -> (n:
    Machine)
    requires
        is_at(m, slot),
        slot is BeforePublic || slot is AfterPublic || slot is BeforeSystem,
        m.pos <= q < to < m.input.len(),
        all_space(m.input, m.pos, q),
        quote == '"' || quote == '\'',
        m.input[q] == quote,
        m.input[to] == quote,
        forall|i: int| q < i < to ==> #[trigger] m.input[i] != quote && m.input[i] != '>',
    ensures
        is_at(
            n,
            if slot is BeforePublic {
                Slot::AfterPublic
            } else {
                Slot::AfterSystem
            },
        ),
        n == (Machine {
            pos: to + 1,
            state: n.state,
            doctype: identified(
                m.doctype,
                slot is BeforePublic,
                visible_all(m.input.subrange(q + 1, to)),
            ),
            ..m
        }),
        tokens(m) == tokens(n),
{
    let public = slot is BeforePublic;
    let k = lemma_id_opened(m, slot, q, quote);
    lemma_id(k, public, quote, seq![], to);
    let id = visible_all(m.input.subrange(q + 1, to));
    assert(seq![] + id =~= id);
    let r = Machine { pos: to, doctype: identified(k.doctype, public, id), ..k };
    quiet_step(r);
    step(r).0
}

/// An identifier is cut short by `>`, or by the end of the input. The DOCTYPE is emitted with
/// what there is of it, and asks for quirks mode.
pub proof fn identifier_is_cut_short(m: Machine, slot: Slot, q: int, quote: char, to: int)
    requires
        is_at(m, slot),
        slot is BeforePublic || slot is AfterPublic || slot is BeforeSystem,
        m.pos <= q < to <= m.input.len(),
        all_space(m.input, m.pos, q),
        quote == '"' || quote == '\'',
        m.input[q] == quote,
        to < m.input.len() ==> m.input[to] == '>',
        forall|i: int| q < i < to ==> #[trigger] m.input[i] != quote && m.input[i] != '>',
    ensures
        tokens(m) == seq![
            TokenView::Doctype(
                quirked(
                    identified(
                        m.doctype,
                        slot is BeforePublic,
                        visible_all(m.input.subrange(q + 1, to)),
                    ),
                    true,
                ),
            ),
        ] + tokens(behind_doctype(m, to)),
{
    let public = slot is BeforePublic;
    let k = lemma_id_opened(m, slot, q, quote);
    lemma_id(k, public, quote, seq![], to);
    let id = visible_all(m.input.subrange(q + 1, to));
    assert(seq![] + id =~= id);
    let r = Machine { pos: to, doctype: identified(k.doctype, public, id), ..k };
    loud_step(r);
    assert(step(r).0 == behind_doctype(m, to));
}

/// The machine behind `<!DOCTYPE` in data and any space.
proof fn lemma_announced(m: Machine, to: int) -> (n: Machine)
    requires
        at_rest(m),
        m.state == State::Data,
        m.pos + 1 < m.input.len(),
        m.input[m.pos] == '<',
        m.input[m.pos + 1] == '!',
        m.spells_at(m.pos + 2, "DOCTYPE"@),
        m.pos + 9 <= to < m.input.len(),
        all_space(m.input, m.pos + 9, to),
        !space(m.input[to]),
    ensures
        n == (Machine {
            pos: to,
            state: State::BeforeDoctypeName,
            doctype: blank_doctype(),
            ..m
        }),
        tokens(m) == tokens(n),
{
    reveal_strlit("DOCTYPE");
    reveal_strlit("--");
    let m1 = step(m).0;
    quiet_step(m);
    let m2 = step(m1).0;
    quiet_step(m1);
    let word = m.input.subrange(m.pos + 2, m.pos + 9);
    assert(lowercase_all(word)[0] == lowercase_all("DOCTYPE"@)[0]);
    assert(word[0] == m.input[m.pos + 2]);
    assert(!m2.holds_at(m2.pos, "--"@)) by {
        assert("--"@[0] == '-');
        if m2.holds_at(m2.pos, "--"@) {
            assert(m2.input.subrange(m2.pos, m2.pos + 2)[0] == m.input[m.pos + 2]);
        }
    }
    let m3 = step(m2).0;
    quiet_step(m2);
    lemma_announced_space(m3, to);
    let m4 = Machine { pos: to, ..m3 };
    let k = step(m4).0;
    quiet_step(m4);
    replaying_is_unreading(k);
    rested(k)
}

proof fn lemma_announced_space(m: Machine, to: int)
    requires
        at_rest(m),
        m.state == State::Doctype,
        m.pos <= to <= m.input.len(),
        all_space(m.input, m.pos, to),
    ensures
        tokens(m) == tokens(Machine { pos: to, ..m }),
    decreases to - m.pos,
{
    if m.pos < to {
        assert(space(m.input[m.pos]));
        quiet_step(m);
        lemma_announced_space(step(m).0, to);
    }
}

/// `<!DOCTYPE` in data, in any case, is followed by any space and the name, which comes out in
/// lower case, with NUL as U+FFFD.
pub proof fn name_is_read(m: Machine, name: int, name_end: int) -> (n: Machine)
    requires
        at_rest(m),
        m.state == State::Data,
        m.pos + 1 < m.input.len(),
        m.input[m.pos] == '<',
        m.input[m.pos + 1] == '!',
        m.spells_at(m.pos + 2, "DOCTYPE"@),
        m.pos + 9 <= name < name_end <= m.input.len(),
        all_space(m.input, m.pos + 9, name),
        forall|i: int| name <= i < name_end ==> !space(#[trigger] m.input[i]) && m.input[i] != '>',
    ensures
        is_at(n, Slot::AfterName),
        n == (Machine {
            pos: name_end,
            state: State::DoctypeName,
            doctype: DoctypeView {
                name: Some(lowercase_all(visible_all(m.input.subrange(name, name_end)))),
                ..blank_doctype()
            },
            ..m
        }),
        tokens(m) == tokens(n),
{
    assert(!space(m.input[name]));
    let m1 = lemma_announced(m, name);
    let m2 = step(m1).0;
    quiet_step(m1);
    doctype_name_is_lowered(m2, name_end);
    let whole = lowercase_all(visible_all(m.input.subrange(name, name_end)));
    assert(m2.doctype.name->0 + lowercase_all(visible_all(m.input.subrange(name + 1, name_end)))
        =~= whole);
    Machine { pos: name_end, doctype: DoctypeView { name: Some(whole), ..m2.doctype }, ..m2 }
}

/// A DOCTYPE without name asks for quirks mode.
pub proof fn nameless_doctype_is_quirky(m: Machine, i: int)
    requires
        at_rest(m),
        m.state == State::Data,
        m.pos + 1 < m.input.len(),
        m.input[m.pos] == '<',
        m.input[m.pos + 1] == '!',
        m.spells_at(m.pos + 2, "DOCTYPE"@),
        m.pos + 9 <= i < m.input.len(),
        all_space(m.input, m.pos + 9, i),
        m.input[i] == '>',
    ensures
        tokens(m) == seq![TokenView::Doctype(quirked(blank_doctype(), true))] + tokens(
            behind_doctype(m, i),
        ),
{
    let n = lemma_announced(m, i);
    loud_step(n);
    assert(step(n).0 == behind_doctype(m, i));
}

/// Where an identifier stands in the input.
pub struct WrittenId {
    /// Where its first quote stands.
    pub open: int,
    /// Where its second quote stands.
    pub close: int,
}

impl WrittenId {
    /// Whether an identifier stands there, with nothing but space between it and `from`.
    pub open spec fn is_written(self, input: Seq<char>, from: int) -> bool {
        &&& from <= self.open < self.close < input.len()
        &&& all_space(input, from, self.open)
        &&& input[self.open] == '"' || input[self.open] == '\''
        &&& input[self.close] == input[self.open]
        &&& forall|i: int|
            self.open < i < self.close ==> #[trigger] input[i] != input[self.open] && input[i]
                != '>'
    }

    /// The identifier, with NUL as U+FFFD.
    pub open spec fn read(self, input: Seq<char>) -> Seq<char> {
        visible_all(input.subrange(self.open + 1, self.close))
    }
}

/// A DOCTYPE without identifiers is read back, with any space between its parts.
pub proof fn bare_doctype_is_read(m: Machine, name: int, name_end: int, i: int)
    requires
        at_rest(m),
        m.state == State::Data,
        m.pos + 1 < m.input.len(),
        m.input[m.pos] == '<',
        m.input[m.pos + 1] == '!',
        m.spells_at(m.pos + 2, "DOCTYPE"@),
        m.pos + 9 <= name < name_end <= i < m.input.len(),
        all_space(m.input, m.pos + 9, name),
        forall|j: int| name <= j < name_end ==> !space(#[trigger] m.input[j]) && m.input[j] != '>',
        all_space(m.input, name_end, i),
        m.input[i] == '>',
    ensures
        tokens(m) == seq![
            TokenView::Doctype(
                DoctypeView {
                    name: Some(lowercase_all(visible_all(m.input.subrange(name, name_end)))),
                    public_id: None,
                    system_id: None,
                    force_quirks: false,
                },
            ),
        ] + tokens(behind_doctype(m, i)),
{
    let n = name_is_read(m, name, name_end);
    doctype_ends_at_greater_than(n, Slot::AfterName, i);
    assert(behind_doctype(n, i) == behind_doctype(m, i));
}

/// A DOCTYPE with a public identifier, and perhaps a system identifier behind it, is read
/// back: in any case of `DOCTYPE` and `PUBLIC`, with quotes of either kind, and with any space
/// between its parts, of which only that before `PUBLIC` must be there.
pub proof fn public_doctype_is_read(
    m: Machine,
    name: int,
    name_end: int,
    keyword: int,
    public: WrittenId,
    system: Option<WrittenId>,
    i: int,
)
    requires
        at_rest(m),
        m.state == State::Data,
        m.pos + 1 < m.input.len(),
        m.input[m.pos] == '<',
        m.input[m.pos + 1] == '!',
        m.spells_at(m.pos + 2, "DOCTYPE"@),
        m.pos + 9 <= name < name_end < keyword < m.input.len(),
        all_space(m.input, m.pos + 9, name),
        forall|j: int| name <= j < name_end ==> !space(#[trigger] m.input[j]) && m.input[j] != '>',
        all_space(m.input, name_end, keyword),
        m.spells_at(keyword, "PUBLIC"@),
        public.is_written(m.input, keyword + 6),
        system matches Some(id) ==> id.is_written(m.input, public.close + 1),
        ({
            let last = match system {
                Some(id) => id.close,
                None => public.close,
            };
            last < i < m.input.len() && all_space(m.input, last + 1, i)
        }),
        m.input[i] == '>',
    ensures
        tokens(m) == seq![
            TokenView::Doctype(
                DoctypeView {
                    name: Some(lowercase_all(visible_all(m.input.subrange(name, name_end)))),
                    public_id: Some(public.read(m.input)),
                    system_id: match system {
                        Some(id) => Some(id.read(m.input)),
                        None => None,
                    },
                    force_quirks: false,
                },
            ),
        ] + tokens(behind_doctype(m, i)),
{
    let m1 = name_is_read(m, name, name_end);
    let m2 = keyword_is_read(m1, keyword, true);
    let m3 = identifier_is_read(
        m2,
        Slot::BeforePublic,
        public.open,
        m.input[public.open],
        public.close,
    );
    match system {
        None => {
            doctype_ends_at_greater_than(m3, Slot::AfterPublic, i);
            assert(behind_doctype(m3, i) == behind_doctype(m, i));
        },
        Some(id) => {
            let m4 = identifier_is_read(
                m3,
                Slot::AfterPublic,
                id.open,
                m.input[id.open],
                id.close,
            );
            doctype_ends_at_greater_than(m4, Slot::AfterSystem, i);
            assert(behind_doctype(m4, i) == behind_doctype(m, i));
        },
    }
}

/// A DOCTYPE with a system identifier alone is read back, in as many ways.
pub proof fn system_doctype_is_read(
    m: Machine,
    name: int,
    name_end: int,
    keyword: int,
    system: WrittenId,
    i: int,
)
    requires
        at_rest(m),
        m.state == State::Data,
        m.pos + 1 < m.input.len(),
        m.input[m.pos] == '<',
        m.input[m.pos + 1] == '!',
        m.spells_at(m.pos + 2, "DOCTYPE"@),
        m.pos + 9 <= name < name_end < keyword < m.input.len(),
        all_space(m.input, m.pos + 9, name),
        forall|j: int| name <= j < name_end ==> !space(#[trigger] m.input[j]) && m.input[j] != '>',
        all_space(m.input, name_end, keyword),
        m.spells_at(keyword, "SYSTEM"@),
        system.is_written(m.input, keyword + 6),
        system.close < i < m.input.len(),
        all_space(m.input, system.close + 1, i),
        m.input[i] == '>',
    ensures
        tokens(m) == seq![
            TokenView::Doctype(
                DoctypeView {
                    name: Some(lowercase_all(visible_all(m.input.subrange(name, name_end)))),
                    public_id: None,
                    system_id: Some(system.read(m.input)),
                    force_quirks: false,
                },
            ),
        ] + tokens(behind_doctype(m, i)),
{
    let m1 = name_is_read(m, name, name_end);
    let m2 = keyword_is_read(m1, keyword, false);
    let m3 = identifier_is_read(
        m2,
        Slot::BeforeSystem,
        system.open,
        m.input[system.open],
        system.close,
    );
    doctype_ends_at_greater_than(m3, Slot::AfterSystem, i);
    assert(behind_doctype(m3, i) == behind_doctype(m, i));
}

} // verus!
