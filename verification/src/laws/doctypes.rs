//! DOCTYPE declarations, from their text.

use crate::chars::{lowercase_all, space};
use crate::laws::stream::{loud_step, quiet_step, replaying_is_unreading, rested};
use crate::laws::tags::{at_rest, lemma_holds_both, lemma_lowered};
use crate::laws::text::visible_all;
use crate::laws::tidy::{lowered, shown};
use crate::model::families::in_doctype;
use crate::model::progress::{lemma_step_advances, rank};
use crate::model::runs::{next_token, tokens};
use crate::model::{blank_doctype, step, Machine};
use crate::types::{DoctypeView, State, TokenView};
use vstd::prelude::*;

verus! {

/// Whether `name` can be written as the name of a DOCTYPE.
pub open spec fn is_doctype_name(name: Seq<char>) -> bool {
    &&& name.len() > 0
    &&& lowered(name)
    &&& forall|i: int| 0 <= i < name.len() ==> !space(#[trigger] name[i]) && name[i] != '>'
}

/// Whether `id` can be written as an identifier between double quotes.
pub open spec fn is_identifier(id: Seq<char>) -> bool {
    shown(id) && forall|i: int|
        0 <= i < id.len() ==> #[trigger] id[i] != '"' && id[i] != '>'
}

/// Whether `d` can be written.
pub open spec fn is_writable_doctype(d: DoctypeView) -> bool {
    &&& d.name matches Some(name) && is_doctype_name(name)
    &&& d.public_id matches Some(id) ==> is_identifier(id)
    &&& d.system_id matches Some(id) ==> is_identifier(id)
    &&& !d.force_quirks
}

/// An identifier between double quotes, with what comes before it.
pub open spec fn identifier_text(before: Seq<char>, id: Seq<char>) -> Seq<char> {
    before + (seq!['"'] + (id + seq!['"']))
}

/// The identifiers of a DOCTYPE.
pub open spec fn identifiers_text(d: DoctypeView) -> Seq<char> {
    match (d.public_id, d.system_id) {
        (None, None) => seq![],
        (Some(p), None) => identifier_text(" PUBLIC "@, p),
        (None, Some(s)) => identifier_text(" SYSTEM "@, s),
        (Some(p), Some(s)) => identifier_text(" PUBLIC "@, p) + identifier_text(" "@, s),
    }
}

/// A DOCTYPE in writing.
pub open spec fn doctype_text(d: DoctypeView) -> Seq<char> {
    "<!DOCTYPE "@ + (d.name->0 + (identifiers_text(d) + seq!['>']))
}

/// The name is read up to `end`, in lower case and with NUL as U+FFFD.
pub proof fn doctype_name_is_lowered(m: Machine, end: int)
    requires
        at_rest(m),
        m.state == State::DoctypeName,
        m.doctype.name is Some,
        m.pos <= end <= m.input.len(),
        forall|i: int| m.pos <= i < end ==> !space(#[trigger] m.input[i]) && m.input[i] != '>',
    ensures
        ({
            let name = m.doctype.name->0 + lowercase_all(
                visible_all(m.input.subrange(m.pos, end)),
            );
            tokens(m) == tokens(
                Machine {
                    pos: end,
                    doctype: DoctypeView { name: Some(name), ..m.doctype },
                    ..m
                },
            )
        }),
    decreases end - m.pos,
{
    let name = m.doctype.name->0 + lowercase_all(visible_all(m.input.subrange(m.pos, end)));
    if m.pos == end {
        assert(name =~= m.doctype.name->0);
        assert(Machine {
            pos: end,
            doctype: DoctypeView { name: Some(name), ..m.doctype },
            ..m
        } == m);
    } else {
        let n = step(m).0;
        assert(!space(m.input[m.pos]));
        quiet_step(m);
        doctype_name_is_lowered(n, end);
        let rest = lowercase_all(visible_all(m.input.subrange(n.pos, end)));
        assert(n.doctype.name->0 + rest =~= name);
    }
}

/// A public identifier is read as it stands up to `end`, with NUL as U+FFFD.
pub proof fn public_id_is_literal(m: Machine, end: int)
    requires
        at_rest(m),
        m.state == State::DoctypePublicIdDoubleQuoted,
        m.doctype.public_id is Some,
        m.pos <= end <= m.input.len(),
        forall|i: int| m.pos <= i < end ==> #[trigger] m.input[i] != '"' && m.input[i] != '>',
    ensures
        ({
            let id = m.doctype.public_id->0 + visible_all(m.input.subrange(m.pos, end));
            tokens(m) == tokens(
                Machine {
                    pos: end,
                    doctype: DoctypeView { public_id: Some(id), ..m.doctype },
                    ..m
                },
            )
        }),
    decreases end - m.pos,
{
    let id = m.doctype.public_id->0 + visible_all(m.input.subrange(m.pos, end));
    if m.pos == end {
        assert(id =~= m.doctype.public_id->0);
        assert(Machine {
            pos: end,
            doctype: DoctypeView { public_id: Some(id), ..m.doctype },
            ..m
        } == m);
    } else {
        let n = step(m).0;
        assert(m.input[m.pos] != '"');
        quiet_step(m);
        public_id_is_literal(n, end);
        assert(n.doctype.public_id->0 + visible_all(m.input.subrange(n.pos, end)) =~= id);
    }
}

/// A system identifier is read as it stands up to `end`, with NUL as U+FFFD.
pub proof fn system_id_is_literal(m: Machine, end: int)
    requires
        at_rest(m),
        m.state == State::DoctypeSystemIdDoubleQuoted,
        m.doctype.system_id is Some,
        m.pos <= end <= m.input.len(),
        forall|i: int| m.pos <= i < end ==> #[trigger] m.input[i] != '"' && m.input[i] != '>',
    ensures
        ({
            let id = m.doctype.system_id->0 + visible_all(m.input.subrange(m.pos, end));
            tokens(m) == tokens(
                Machine {
                    pos: end,
                    doctype: DoctypeView { system_id: Some(id), ..m.doctype },
                    ..m
                },
            )
        }),
    decreases end - m.pos,
{
    let id = m.doctype.system_id->0 + visible_all(m.input.subrange(m.pos, end));
    if m.pos == end {
        assert(id =~= m.doctype.system_id->0);
        assert(Machine {
            pos: end,
            doctype: DoctypeView { system_id: Some(id), ..m.doctype },
            ..m
        } == m);
    } else {
        let n = step(m).0;
        assert(m.input[m.pos] != '"');
        quiet_step(m);
        system_id_is_literal(n, end);
        assert(n.doctype.system_id->0 + visible_all(m.input.subrange(n.pos, end)) =~= id);
    }
}

/// From the quote that opens a public identifier to behind the one that closes it.
proof fn lemma_public_id(m: Machine, id: Seq<char>)
    requires
        at_rest(m),
        m.state == State::BeforeDoctypePublicId,
        is_identifier(id),
        m.holds_at(m.pos, seq!['"'] + (id + seq!['"'])),
    ensures
        tokens(m) == tokens(
            Machine {
                pos: m.pos + id.len() + 2,
                state: State::AfterDoctypePublicId,
                doctype: DoctypeView { public_id: Some(id), ..m.doctype },
                ..m
            },
        ),
{
    let p = m.pos + 1;
    let end = p + id.len();
    lemma_holds_both(m, m.pos, seq!['"'], id + seq!['"']);
    lemma_holds_both(m, p, id, seq!['"']);
    assert(m.input[m.pos] == seq!['"'][0]);
    assert(m.input[end] == seq!['"'][0]);
    let m1 = step(m).0;
    quiet_step(m);
    assert forall|i: int| p <= i < end implies #[trigger] m.input[i] != '"' && m.input[i]
        != '>' by {
        assert(m.input[i] == id[i - p]);
    }
    public_id_is_literal(m1, end);
    assert(m.input.subrange(p, end) =~= id);
    assert(visible_all(id) =~= id);
    assert(m1.doctype.public_id->0 + id =~= id);
    let m2 = Machine {
        pos: end,
        doctype: DoctypeView { public_id: Some(id), ..m1.doctype },
        ..m1
    };
    quiet_step(m2);
    assert(step(m2).0 == Machine {
        pos: m.pos + id.len() + 2,
        state: State::AfterDoctypePublicId,
        doctype: DoctypeView { public_id: Some(id), ..m.doctype },
        ..m
    });
}

/// From the quote that opens a system identifier to behind the one that closes it.
proof fn lemma_system_id(m: Machine, id: Seq<char>)
    requires
        at_rest(m),
        m.state == State::BeforeDoctypeSystemId || m.state
            == State::BetweenDoctypePublicAndSystemIds,
        is_identifier(id),
        m.holds_at(m.pos, seq!['"'] + (id + seq!['"'])),
    ensures
        tokens(m) == tokens(
            Machine {
                pos: m.pos + id.len() + 2,
                state: State::AfterDoctypeSystemId,
                doctype: DoctypeView { system_id: Some(id), ..m.doctype },
                ..m
            },
        ),
{
    let p = m.pos + 1;
    let end = p + id.len();
    lemma_holds_both(m, m.pos, seq!['"'], id + seq!['"']);
    lemma_holds_both(m, p, id, seq!['"']);
    assert(m.input[m.pos] == seq!['"'][0]);
    assert(m.input[end] == seq!['"'][0]);
    let m1 = step(m).0;
    quiet_step(m);
    assert forall|i: int| p <= i < end implies #[trigger] m.input[i] != '"' && m.input[i]
        != '>' by {
        assert(m.input[i] == id[i - p]);
    }
    system_id_is_literal(m1, end);
    assert(m.input.subrange(p, end) =~= id);
    assert(visible_all(id) =~= id);
    assert(m1.doctype.system_id->0 + id =~= id);
    let m2 = Machine {
        pos: end,
        doctype: DoctypeView { system_id: Some(id), ..m1.doctype },
        ..m1
    };
    quiet_step(m2);
    assert(step(m2).0 == Machine {
        pos: m.pos + id.len() + 2,
        state: State::AfterDoctypeSystemId,
        doctype: DoctypeView { system_id: Some(id), ..m.doctype },
        ..m
    });
}

/// From behind the name to behind ` PUBLIC ` or ` SYSTEM `.
proof fn lemma_keyword(m: Machine, public: bool)
    requires
        at_rest(m),
        m.state == State::DoctypeName,
        m.holds_at(
            m.pos,
            if public {
                " PUBLIC "@
            } else {
                " SYSTEM "@
            },
        ),
    ensures
        tokens(m) == tokens(
            Machine {
                pos: m.pos + 8,
                state: if public {
                    State::BeforeDoctypePublicId
                } else {
                    State::BeforeDoctypeSystemId
                },
                ..m
            },
        ),
{
    reveal_strlit(" PUBLIC ");
    reveal_strlit(" SYSTEM ");
    reveal_strlit("PUBLIC");
    reveal_strlit("SYSTEM");
    let word = if public {
        " PUBLIC "@
    } else {
        " SYSTEM "@
    };
    let all = m.input.subrange(m.pos, m.pos + 8);
    assert(all == word);
    assert(m.input[m.pos] == all[0]);
    assert(m.input[m.pos + 1] == all[1]);
    assert(m.input[m.pos + 7] == all[7]);
    let m1 = step(m).0;
    quiet_step(m);
    let here = m.input.subrange(m.pos + 1, m.pos + 7);
    assert(here =~= all.subrange(1, 7));
    if public {
        assert(here =~= "PUBLIC"@);
    } else {
        assert(here =~= "SYSTEM"@);
        assert(lowercase_all(here)[0] != lowercase_all("PUBLIC"@)[0]);
    }
    let m2 = step(m1).0;
    quiet_step(m1);
    quiet_step(m2);
}

/// From behind the name to the end, where there are two identifiers.
proof fn lemma_both_ids(m: Machine, d: DoctypeView, p: Seq<char>, s: Seq<char>)
    requires
        at_rest(m),
        m.state == State::DoctypeName,
        is_writable_doctype(d),
        m.doctype == (DoctypeView { public_id: None, system_id: None, ..d }),
        d.public_id == Some(p),
        d.system_id == Some(s),
        m.holds_at(m.pos, identifiers_text(d)),
        m.pos + identifiers_text(d).len() < m.input.len(),
        m.input[m.pos + identifiers_text(d).len()] == '>',
    ensures
        tokens(m) == seq![TokenView::Doctype(d)] + tokens(
            Machine {
                pos: m.pos + identifiers_text(d).len() + 1,
                state: State::Data,
                doctype: blank_doctype(),
                ..m
            },
        ),
{
    reveal_strlit(" PUBLIC ");
    reveal_strlit(" ");
    let end = m.pos + identifiers_text(d).len();
    let first = identifier_text(" PUBLIC "@, p);
    let second = identifier_text(" "@, s);
    lemma_holds_both(m, m.pos, first, second);
    lemma_holds_both(m, m.pos, " PUBLIC "@, seq!['"'] + (p + seq!['"']));
    lemma_keyword(m, true);
    let m1 = Machine { pos: m.pos + 8, state: State::BeforeDoctypePublicId, ..m };
    lemma_public_id(m1, p);
    let m2 = Machine {
        pos: m.pos + first.len(),
        state: State::AfterDoctypePublicId,
        doctype: DoctypeView { public_id: Some(p), ..m.doctype },
        ..m
    };
    lemma_holds_both(m2, m2.pos, " "@, seq!['"'] + (s + seq!['"']));
    assert(m2.input[m2.pos] == " "@[0]);
    let m3 = step(m2).0;
    quiet_step(m2);
    lemma_system_id(m3, s);
    let m4 = Machine {
        pos: end,
        state: State::AfterDoctypeSystemId,
        doctype: DoctypeView { system_id: Some(s), ..m2.doctype },
        ..m
    };
    loud_step(m4);
}

/// From behind the name to the end.
proof fn lemma_after_name(m: Machine, d: DoctypeView)
    requires
        at_rest(m),
        m.state == State::DoctypeName,
        is_writable_doctype(d),
        m.doctype == (DoctypeView { public_id: None, system_id: None, ..d }),
        m.holds_at(m.pos, identifiers_text(d) + seq!['>']),
    ensures
        tokens(m) == seq![TokenView::Doctype(d)] + tokens(
            Machine {
                pos: m.pos + identifiers_text(d).len() + 1,
                state: State::Data,
                doctype: blank_doctype(),
                ..m
            },
        ),
{
    let ids = identifiers_text(d);
    reveal_strlit(" PUBLIC ");
    reveal_strlit(" SYSTEM ");
    reveal_strlit(" ");
    lemma_holds_both(m, m.pos, ids, seq!['>']);
    let end = m.pos + ids.len();
    assert(m.input[end] == seq!['>'][0]);
    match (d.public_id, d.system_id) {
        (None, None) => {
            loud_step(m);
        },
        (Some(p), None) => {
            lemma_holds_both(m, m.pos, " PUBLIC "@, seq!['"'] + (p + seq!['"']));
            lemma_keyword(m, true);
            let m1 = Machine { pos: m.pos + 8, state: State::BeforeDoctypePublicId, ..m };
            lemma_public_id(m1, p);
            let m2 = Machine {
                pos: end,
                state: State::AfterDoctypePublicId,
                doctype: DoctypeView { public_id: Some(p), ..m.doctype },
                ..m
            };
            loud_step(m2);
        },
        (None, Some(s)) => {
            lemma_holds_both(m, m.pos, " SYSTEM "@, seq!['"'] + (s + seq!['"']));
            lemma_keyword(m, false);
            let m1 = Machine { pos: m.pos + 8, state: State::BeforeDoctypeSystemId, ..m };
            lemma_system_id(m1, s);
            let m2 = Machine {
                pos: end,
                state: State::AfterDoctypeSystemId,
                doctype: DoctypeView { system_id: Some(s), ..m.doctype },
                ..m
            };
            loud_step(m2);
        },
        (Some(p), Some(s)) => {
            lemma_both_ids(m, d, p, s);
        },
    }
}

/// A DOCTYPE in writing is read back: its text in data gives rise to the DOCTYPE, and
/// reading goes on behind it.
pub proof fn written_doctype_is_read_back(m: Machine, d: DoctypeView)
    requires
        at_rest(m),
        m.state == State::Data,
        is_writable_doctype(d),
        m.holds_at(m.pos, doctype_text(d)),
    ensures
        tokens(m) == seq![TokenView::Doctype(d)] + tokens(
            Machine { pos: m.pos + doctype_text(d).len(), doctype: blank_doctype(), ..m },
        ),
{
    let name = d.name->0;
    let rest = identifiers_text(d) + seq!['>'];
    let opening = "<!DOCTYPE "@;
    reveal_strlit("<!DOCTYPE ");
    reveal_strlit("DOCTYPE");
    reveal_strlit("--");
    lemma_holds_both(m, m.pos, opening, name + rest);
    let p = m.pos + 10;
    let end = p + name.len();
    lemma_holds_both(m, p, name, rest);
    assert(m.input[m.pos] == opening[0]);
    assert(m.input[m.pos + 1] == opening[1]);
    assert(m.input[m.pos + 2] == opening[2]);
    assert(m.input[m.pos + 9] == opening[9]);
    assert(m.input[p] == name[0]);
    let m1 = step(m).0;
    quiet_step(m);
    let m2 = step(m1).0;
    quiet_step(m1);
    assert(m2.input.subrange(m2.pos, m2.pos + 7) =~= "DOCTYPE"@) by {
        assert forall|i: int| 0 <= i < 7 implies m.input[m.pos + 2 + i]
            == #[trigger] "DOCTYPE"@[i] by {
            assert(m.input[m.pos + (2 + i)] == opening[2 + i]);
        }
    }
    assert(!m2.holds_at(m2.pos, "--"@)) by {
        assert(m2.input.subrange(m2.pos, m2.pos + 2)[0] != "--"@[0]);
    }
    let m3 = step(m2).0;
    quiet_step(m2);
    let m4 = step(m3).0;
    quiet_step(m3);
    let m5 = step(m4).0;
    quiet_step(m4);
    replaying_is_unreading(m5);
    let m6 = rested(m5);
    assert(m6.state == State::BeforeDoctypeName && m6.pos == p);
    let m7 = step(m6).0;
    quiet_step(m6);
    assert forall|i: int| p + 1 <= i < end implies !space(#[trigger] m.input[i]) && m.input[i]
        != '>' by {
        assert(m.input[i] == name[i - p]);
    }
    doctype_name_is_lowered(m7, end);
    let tail = m.input.subrange(p + 1, end);
    assert(tail =~= name.drop_first());
    lemma_lowered(tail);
    assert(m7.doctype.name->0 + tail =~= name);
    let m8 = Machine {
        pos: end,
        doctype: DoctypeView { name: Some(name), ..m7.doctype },
        ..m7
    };
    lemma_after_name(m8, d);
    assert(doctype_text(d).len() == 10 + name.len() + rest.len());
}

/// From within a DOCTYPE the next token is a DOCTYPE, whatever follows, and the state
/// after it is the data state.
pub proof fn a_doctype_comes_next(m: Machine)
    requires
        m.wf(),
        !m.done,
        m.pending.len() == 0,
        in_doctype(m.state),
    ensures
        next_token(m).1 matches Some(TokenView::Doctype(_)),
        next_token(m).0.state == State::Data,
        next_token(m).0.doctype == blank_doctype(),
    decreases m.left(), rank(m.state),
{
    let (n, t) = step(m);
    lemma_step_advances(m);
    if t is None {
        quiet_step(m);
        a_doctype_comes_next(n);
    } else {
        loud_step(m);
    }
}

/// `<!DOCTYPE` in data, in any case, makes the next token a DOCTYPE, whatever follows, and
/// the state after it is the data state.
pub proof fn an_announced_doctype_comes_next(m: Machine)
    requires
        at_rest(m),
        m.state == State::Data,
        m.holds_at(m.pos, seq!['<', '!']),
        m.spells_at(m.pos + 2, "DOCTYPE"@),
    ensures
        next_token(m).1 matches Some(TokenView::Doctype(_)),
        next_token(m).0.state == State::Data,
{
    reveal_strlit("DOCTYPE");
    reveal_strlit("--");
    let opening = m.input.subrange(m.pos, m.pos + 2);
    assert(m.input[m.pos] == opening[0]);
    assert(m.input[m.pos + 1] == opening[1]);
    let m1 = step(m).0;
    quiet_step(m);
    let m2 = step(m1).0;
    quiet_step(m1);
    let word = m.input.subrange(m.pos + 2, m.pos + 9);
    assert(lowercase_all(word)[0] == lowercase_all("DOCTYPE"@)[0]);
    assert(word[0] == m.input[m.pos + 2]);
    assert(!m2.holds_at(m2.pos, "--"@)) by {
        assert("--"@[0] == '-');
        if m2.holds_at(m2.pos, "--"@) {
            assert(m2.input.subrange(m2.pos, m2.pos + 2)[0] == m.input[m.pos + 2]);
        }
    }
    let m3 = step(m2).0;
    quiet_step(m2);
    a_doctype_comes_next(m3);
}

} // verus!
