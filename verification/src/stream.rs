//! The response streamer.
//!
//! A response arrives as a finite, ordered sequence of events. Each event
//! carries text fragments: a chat event has one optional delta per choice
//! (an absent delta is skipped silently), a completion event has one text
//! per choice. Fragments are emitted in arrival order, with no buffering or
//! reordering; a clean end is followed by a single trailing line terminator.
//! A transport error aborts the stream at once — whatever was already
//! emitted stands, and nothing after the error is emitted.

use vstd::prelude::*;
use vstd::string::*;

verus! {

/// One event's text content, by request shape.
#[derive(Clone, Debug)]
pub enum EventPayload {
    /// One optional delta per choice; an absent delta is skipped.
    Chat(Vec<Option<String>>),
    /// One text per choice, always present.
    Completion(Vec<String>),
}

/// One item of the event stream: a payload, or the transport error that
/// ended the stream.
#[derive(Clone, Debug)]
pub enum StreamItem {
    Event(EventPayload),
    TransportError(String),
}

/// The fragments of a chat event: the present deltas, in order.
pub open spec fn spec_chat_fragments(deltas: Seq<Option<Seq<char>>>) -> Seq<Seq<char>>
    decreases deltas.len(),
{
    if deltas.len() == 0 {
        Seq::empty()
    } else {
        let rest = spec_chat_fragments(deltas.drop_last());
        match deltas.last() {
            Some(s) => rest.push(s),
            None => rest,
        }
    }
}

/// The fragments one payload contributes, in order.
pub open spec fn spec_fragments(p: EventPayload) -> Seq<Seq<char>> {
    match p {
        EventPayload::Chat(deltas) => spec_chat_fragments(deltas.deep_view()),
        EventPayload::Completion(texts) => texts.deep_view(),
    }
}

/// All fragments joined, in order.
pub open spec fn spec_concat(frags: Seq<Seq<char>>) -> Seq<char>
    decreases frags.len(),
{
    if frags.len() == 0 {
        Seq::empty()
    } else {
        spec_concat(frags.drop_last()) + frags.last()
    }
}

/// Everything a stream emits: each event's fragments in arrival order, up to
/// but not including the first transport error.
pub open spec fn spec_emitted(items: Seq<StreamItem>) -> Seq<char>
    decreases items.len(),
{
    if items.len() == 0 {
        Seq::empty()
    } else {
        match items[0] {
            StreamItem::Event(p) => spec_concat(spec_fragments(p)) + spec_emitted(items.skip(1)),
            StreamItem::TransportError(_) => Seq::empty(),
        }
    }
}

/// The message of the first transport error, if the stream failed.
pub open spec fn spec_first_error(items: Seq<StreamItem>) -> Option<Seq<char>>
    decreases items.len(),
{
    if items.len() == 0 {
        None
    } else {
        match items[0] {
            StreamItem::Event(_) => spec_first_error(items.skip(1)),
            StreamItem::TransportError(m) => Some(m@),
        }
    }
}

/// Extract the text fragments of one event, in order: the present chat
/// deltas, or every completion choice text.
pub fn payload_fragments(payload: &EventPayload) -> (r: Vec<String>)
    ensures
        r.deep_view() == spec_fragments(*payload),
{
    match payload {
        EventPayload::Chat(deltas) => {
            let dvg = Ghost(deltas.deep_view());
            let mut out: Vec<String> = Vec::new();
            let mut i: usize = 0;
            while i < deltas.len()
                invariant
                    i <= deltas@.len(),
                    dvg@ == deltas.deep_view(),
                    dvg@.len() == deltas@.len(),
                    out.deep_view() == spec_chat_fragments(dvg@.take(i as int)),
                decreases deltas@.len() - i,
            {
                let ghost prev = out.deep_view();
                match &deltas[i] {
                    Some(s) => {
                        let c = s.clone();
                        proof {
                            assert(c.deep_view() == s@);
                        }
                        out.push(c);
                        proof {
                            assert(out.deep_view() =~= prev.push(s@));
                        }
                    },
                    None => {},
                }
                proof {
                    assert(dvg@.take((i + 1) as int).drop_last() =~= dvg@.take(i as int));
                    assert(dvg@.take((i + 1) as int).last() == dvg@[i as int]);
                    assert(dvg@[i as int] == deltas@[i as int].deep_view());
                }
                i += 1;
            }
            proof {
                assert(dvg@.take(deltas@.len() as int) =~= dvg@);
            }
            out
        },
        EventPayload::Completion(texts) => {
            let r = texts.clone();
            proof {
                assert forall|k: int| 0 <= k < texts@.len() implies r@[k] == texts@[k] by {
                    assert(cloned::<String>(texts@[k], r@[k]));
                }
                assert(r@ =~= texts@);
                assert(r.deep_view() =~= texts.deep_view());
            }
            r
        },
    }
}

fn append_fragments(text: &mut String, frags: &Vec<String>)
    ensures
        final(text)@ == old(text)@ + spec_concat(frags.deep_view()),
{
    let ghost t0: Seq<char> = text@;
    let ghost dv = frags.deep_view();
    let mut j: usize = 0;
    while j < frags.len()
        invariant
            j <= frags@.len(),
            dv == frags.deep_view(),
            dv.len() == frags@.len(),
            text@ == t0 + spec_concat(dv.take(j as int)),
        decreases frags@.len() - j,
    {
        text.append(frags[j].as_str());
        proof {
            assert(dv.take((j + 1) as int).drop_last() =~= dv.take(j as int));
            assert(dv.take((j + 1) as int).last() == dv[j as int]);
            assert(dv[j as int] == frags@[j as int]@);
            assert(t0 + spec_concat(dv.take((j + 1) as int)) =~= (t0 + spec_concat(
                dv.take(j as int),
            )) + frags@[j as int]@);
        }
        j += 1;
    }
    proof {
        assert(dv.take(frags@.len() as int) =~= dv);
    }
}

/// What a whole stream prints and how it ended.
#[derive(Clone, Debug)]
pub struct StreamOutput {
    /// The emitted text: every fragment in arrival order, with a trailing
    /// line terminator exactly when the stream ended cleanly.
    pub text: String,
    /// The first transport error, if the stream failed. Text emitted before
    /// the error stands as-is.
    pub error: Option<String>,
}

/// Fold a finite event stream into what it prints: fragments in arrival
/// order up to the first transport error; a single trailing line terminator
/// exactly on a clean end; the first error, if any, reported alongside the
/// text already emitted.
pub fn render_stream(items: &Vec<StreamItem>) -> (r: StreamOutput)
    ensures
        match spec_first_error(items@) {
            None => r.error is None && r.text@ == spec_emitted(items@) + seq!['\n'],
            Some(m) => (r.error matches Some(e) && e@ == m) && r.text@ == spec_emitted(items@),
        },
{
    let mut text = String::new();
    let mut i: usize = 0;
    proof {
        assert(items@.skip(0) =~= items@);
        assert(text@ + spec_emitted(items@) =~= spec_emitted(items@));
    }
    while i < items.len()
        invariant
            i <= items@.len(),
            spec_first_error(items@) == spec_first_error(items@.skip(i as int)),
            spec_emitted(items@) == text@ + spec_emitted(items@.skip(i as int)),
        decreases items@.len() - i,
    {
        proof {
            assert(items@.skip(i as int)[0] == items@[i as int]);
            assert(items@.skip(i as int).skip(1) =~= items@.skip(i as int + 1));
        }
        match &items[i] {
            StreamItem::Event(p) => {
                let frags = payload_fragments(p);
                append_fragments(&mut text, &frags);
            },
            StreamItem::TransportError(m) => {
                let e = m.clone();
                proof {
                    assert(text@ + spec_emitted(items@.skip(i as int)) =~= text@);
                }
                return StreamOutput { text, error: Some(e) };
            },
        }
        i += 1;
    }
    proof {
        assert(items@.skip(items@.len() as int) =~= Seq::<StreamItem>::empty());
        assert(text@ + spec_emitted(items@.skip(items@.len() as int)) =~= text@);
    }
    text.append("\n");
    proof {
        reveal_strlit("\n");
        assert("\n"@ =~= seq!['\n']);
    }
    StreamOutput { text, error: None }
}

} // verus!
