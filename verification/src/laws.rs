//! Laws of evaluation, stated and proved over the semantics: what holds of
//! unknown commands, unbound variables, assignment followed by reference,
//! the raw escape, and nested groups.

use vstd::prelude::*;

use crate::commands::kind_of_name;
use crate::errors::ErrV;
use crate::semantics::{classify_head, command_start, eval_stream, HeadItem, StoreV};
use crate::token::{Delim, TokView};

verus! {

/// Any bracketed group that opens like a command, `[!name ...]`, whose name
/// is not registered is a hard `UnknownCommand` error — never silent
/// pass-through — whatever follows the name and whatever comes after the
/// group.
pub proof fn lemma_unknown_command_is_an_error(
    store: StoreV,
    name: Seq<char>,
    bang_span: nat,
    name_span: nat,
    rest: Seq<TokView>,
    span: nat,
    tail: Seq<TokView>,
)
    requires
        kind_of_name(name) is None,
    ensures
        ({
            let inner = seq![
                TokView::Punct { ch: '!', span: bang_span },
                TokView::Ident { text: name, span: name_span },
            ] + rest;
            let group = TokView::Group { delim: Delim::Bracket, tokens: inner, span };
            eval_stream(store, seq![group] + tail) == Err::<(Seq<TokView>, StoreV), ErrV>(
                ErrV::UnknownCommand { name, span },
            )
        }),
{
    let inner = seq![
        TokView::Punct { ch: '!', span: bang_span },
        TokView::Ident { text: name, span: name_span },
    ] + rest;
    let group = TokView::Group { delim: Delim::Bracket, tokens: inner, span };
    let ts = seq![group] + tail;
    assert(ts[0] == group);
    assert(inner[0] == TokView::Punct { ch: '!', span: bang_span });
    assert(inner[1] == TokView::Ident { text: name, span: name_span });
    assert(command_start(group) == Some((name, inner.skip(2))));
    assert(classify_head(ts) == HeadItem::CmdErr { name, span });
}

/// Referencing a variable that was never assigned is a hard
/// `UndefinedVariable` error, at the span of the referenced identifier.
pub proof fn lemma_undefined_variable_is_an_error(
    store: StoreV,
    name: Seq<char>,
    marker_span: nat,
    name_span: nat,
    tail: Seq<TokView>,
)
    requires
        !store.contains_key(name),
    ensures
        eval_stream(
            store,
            seq![
                TokView::Punct { ch: '#', span: marker_span },
                TokView::Ident { text: name, span: name_span },
            ] + tail,
        ) == Err::<(Seq<TokView>, StoreV), ErrV>(ErrV::UndefinedVariable { name, span: name_span }),
{
    let ts = seq![
        TokView::Punct { ch: '#', span: marker_span },
        TokView::Ident { text: name, span: name_span },
    ] + tail;
    assert(ts[0] == TokView::Punct { ch: '#', span: marker_span });
    assert(ts[1] == TokView::Ident { text: name, span: name_span });
    assert(classify_head(ts) == HeadItem::Subst { name, name_span });
}

/// Assignment idempotence: for any already-fully-resolved stream `t` —
/// one that evaluates to itself without touching the store —
/// `[!set! #x = t] #x` outputs exactly `t` again, with `x` now bound to `t`.
pub proof fn lemma_assign_then_reference(
    store: StoreV,
    x: Seq<char>,
    t: Seq<TokView>,
    group_span: nat,
    open_bang_span: nat,
    set_span: nat,
    close_bang_span: nat,
    marker_span: nat,
    x_span: nat,
    eq_span: nat,
    ref_marker_span: nat,
    ref_x_span: nat,
)
    requires
        eval_stream(store, t) == Ok::<(Seq<TokView>, StoreV), ErrV>((t, store)),
    ensures
        ({
            let inner = seq![
                TokView::Punct { ch: '!', span: open_bang_span },
                TokView::Ident { text: "set"@, span: set_span },
                TokView::Punct { ch: '!', span: close_bang_span },
                TokView::Punct { ch: '#', span: marker_span },
                TokView::Ident { text: x, span: x_span },
                TokView::Punct { ch: '=', span: eq_span },
            ] + t;
            let set_group = TokView::Group { delim: Delim::Bracket, tokens: inner, span: group_span };
            let reference = seq![
                TokView::Punct { ch: '#', span: ref_marker_span },
                TokView::Ident { text: x, span: ref_x_span },
            ];
            eval_stream(store, seq![set_group] + reference) == Ok::<
                (Seq<TokView>, StoreV),
                ErrV,
            >((t, store.insert(x, t)))
        }),
{
    let inner = seq![
        TokView::Punct { ch: '!', span: open_bang_span },
        TokView::Ident { text: "set"@, span: set_span },
        TokView::Punct { ch: '!', span: close_bang_span },
        TokView::Punct { ch: '#', span: marker_span },
        TokView::Ident { text: x, span: x_span },
        TokView::Punct { ch: '=', span: eq_span },
    ] + t;
    let set_group = TokView::Group { delim: Delim::Bracket, tokens: inner, span: group_span };
    let reference = seq![
        TokView::Punct { ch: '#', span: ref_marker_span },
        TokView::Ident { text: x, span: ref_x_span },
    ];
    let ts = seq![set_group] + reference;
    let store2 = store.insert(x, t);

    // The head is a well-formed `set` invocation whose argument starts with
    // `#x =` and continues with `t`.
    assert(ts[0] == set_group);
    assert(inner[0] == TokView::Punct { ch: '!', span: open_bang_span });
    assert(inner[1] == TokView::Ident { text: "set"@, span: set_span });
    assert(command_start(set_group) == Some(("set"@, inner.skip(2))));
    assert(kind_of_name("set"@) == Some(crate::commands::CommandKind::SetCommand));
    let rest = inner.skip(2);
    assert(rest[0] == inner[2]);
    let args = rest.skip(1);
    assert(args =~= inner.skip(3));
    assert(classify_head(ts) == HeadItem::Cmd {
        kind: crate::commands::CommandKind::SetCommand,
        args,
        span: group_span,
    });
    assert(args[0] == inner[3]);
    assert(args[1] == inner[4]);
    assert(args[2] == inner[5]);
    assert(args.skip(3) =~= t);
    assert(crate::semantics::set_prefix(args) == Some((x, t)));
    assert(crate::semantics::eval_command(
        store,
        crate::commands::CommandKind::SetCommand,
        args,
        group_span,
    ) == Ok::<(Seq<TokView>, StoreV), ErrV>((Seq::empty(), store2)));

    // After the assignment, the reference substitutes the stored copy of `t`.
    assert(ts.drop_first() =~= reference);
    assert(reference[0] == TokView::Punct { ch: '#', span: ref_marker_span });
    assert(reference[1] == TokView::Ident { text: x, span: ref_x_span });
    assert(classify_head(reference) == HeadItem::Subst { name: x, name_span: ref_x_span });
    assert(store2.contains_key(x) && store2[x] == t);
    assert(reference.skip(2) =~= Seq::<TokView>::empty());
    assert(eval_stream(store2, reference.skip(2)) == Ok::<(Seq<TokView>, StoreV), ErrV>(
        (Seq::empty(), store2),
    ));
    assert(eval_stream(store2, reference) == Ok::<(Seq<TokView>, StoreV), ErrV>(
        (t + Seq::empty(), store2),
    ));
    assert(t + Seq::<TokView>::empty() =~= t);
    assert(Seq::<TokView>::empty() + t =~= t);
}

/// The raw-escape law: `[!raw! x]` evaluates to `x` unchanged,
/// token for token, whatever `x` holds — even syntactically valid-looking
/// command or substitution patterns — and leaves the store untouched.
pub proof fn lemma_raw_passthrough(
    store: StoreV,
    x: Seq<TokView>,
    group_span: nat,
    open_bang_span: nat,
    raw_span: nat,
    close_bang_span: nat,
)
    ensures
        ({
            let inner = seq![
                TokView::Punct { ch: '!', span: open_bang_span },
                TokView::Ident { text: "raw"@, span: raw_span },
                TokView::Punct { ch: '!', span: close_bang_span },
            ] + x;
            let group = TokView::Group { delim: Delim::Bracket, tokens: inner, span: group_span };
            eval_stream(store, seq![group]) == Ok::<(Seq<TokView>, StoreV), ErrV>((x, store))
        }),
{
    let inner = seq![
        TokView::Punct { ch: '!', span: open_bang_span },
        TokView::Ident { text: "raw"@, span: raw_span },
        TokView::Punct { ch: '!', span: close_bang_span },
    ] + x;
    let group = TokView::Group { delim: Delim::Bracket, tokens: inner, span: group_span };
    let ts = seq![group];
    assert(ts[0] == group);
    assert(inner[0] == TokView::Punct { ch: '!', span: open_bang_span });
    assert(inner[1] == TokView::Ident { text: "raw"@, span: raw_span });
    assert(command_start(group) == Some(("raw"@, inner.skip(2))));
    reveal_strlit("set");
    reveal_strlit("raw");
    assert("raw"@[0] == 'r' && "set"@[0] == 's');
    assert("raw"@ != "set"@);
    assert(kind_of_name("raw"@) == Some(crate::commands::CommandKind::RawCommand));
    let rest = inner.skip(2);
    assert(rest[0] == inner[2]);
    let args = rest.skip(1);
    assert(args =~= x);
    assert(classify_head(ts) == HeadItem::Cmd {
        kind: crate::commands::CommandKind::RawCommand,
        args,
        span: group_span,
    });
    assert(crate::semantics::eval_command(
        store,
        crate::commands::CommandKind::RawCommand,
        args,
        group_span,
    ) == Ok::<(Seq<TokView>, StoreV), ErrV>((args, store)));
    assert(ts.drop_first() =~= Seq::<TokView>::empty());
    assert(eval_stream(store, ts.drop_first()) == Ok::<(Seq<TokView>, StoreV), ErrV>(
        (Seq::empty(), store),
    ));
    assert(x + Seq::<TokView>::empty() =~= x);
}

/// Nested-group recursion: a group that is not a command evaluates its
/// stream under the same store, is re-wrapped with its original delimiter,
/// and whatever follows the group is evaluated under the store the group's
/// stream left behind — bindings made inside stay visible after the
/// boundary. Its error, if any, is the whole evaluation's error.
pub proof fn lemma_nested_group(
    store: StoreV,
    delim: Delim,
    inner: Seq<TokView>,
    span: nat,
    tail: Seq<TokView>,
)
    requires
        command_start(TokView::Group { delim, tokens: inner, span }) is None,
    ensures
        ({
            let group = TokView::Group { delim, tokens: inner, span };
            eval_stream(store, seq![group] + tail) == (match eval_stream(store, inner) {
                Ok(p) => crate::semantics::compose(
                    seq![TokView::Group { delim, tokens: p.0, span }],
                    eval_stream(p.1, tail),
                ),
                Err(e) => Err(e),
            })
        }),
{
    let group = TokView::Group { delim, tokens: inner, span };
    let ts = seq![group] + tail;
    assert(ts[0] == group);
    assert(classify_head(ts) == HeadItem::Nested { delim, inner, span });
    assert(ts.drop_first() =~= tail);
}

} // verus!
