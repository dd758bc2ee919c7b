//! Relaying a media stream to the client: whether the stream is passed on,
//! and which of the upstream's response headers go with it.

use vstd::prelude::*;

verus! {

/// The status of a relayed stream.
pub const STATUS_OK: u16 = 200;

/// The status of the answer where there is no stream to relay.
pub const STATUS_NOT_FOUND: u16 = 404;

/// A header as the upstream sent it, as plain values: its name, and its
/// value where that is text.
pub type SentHeader = (Seq<char>, Option<Seq<char>>);

/// A header that is passed on, as plain values: its name and its value.
pub type HeaderView = (Seq<char>, Seq<char>);

/// The views of the upstream's headers, in order.
pub open spec fn sent_view(headers: Seq<(String, Option<String>)>) -> Seq<SentHeader> {
    Seq::new(headers.len(), |i: int| (headers[i].0@, crate::store::text_view(headers[i].1)))
}

/// The views of a list of headers, in order.
pub open spec fn headers_view(headers: Seq<(String, String)>) -> Seq<HeaderView> {
    Seq::new(headers.len(), |i: int| (headers[i].0@, headers[i].1@))
}

/// Whether one of `headers` has the name `name`.
pub open spec fn named<T>(headers: Seq<(Seq<char>, T)>, name: Seq<char>) -> bool {
    exists|k: int| 0 <= k < headers.len() && (#[trigger] headers[k]).0 == name
}

/// Of each name the first header that the upstream sent, in the upstream's
/// order.
pub open spec fn relayed<T>(headers: Seq<(Seq<char>, T)>) -> Seq<(Seq<char>, T)>
    decreases headers.len(),
{
    if headers.len() == 0 {
        Seq::empty()
    } else if named(headers.drop_last(), headers.last().0) {
        relayed(headers.drop_last())
    } else {
        relayed(headers.drop_last()).push(headers.last())
    }
}

/// Whether every header has a value that is text.
pub open spec fn all_text(headers: Seq<SentHeader>) -> bool {
    forall|i: int| 0 <= i < headers.len() ==> (#[trigger] headers[i]).1 is Some
}

/// The headers with their values taken as text.
pub open spec fn as_text(headers: Seq<SentHeader>) -> Seq<HeaderView> {
    Seq::new(headers.len(), |i: int| (headers[i].0, headers[i].1.unwrap()))
}

/// What the client is answered.
#[derive(Debug, Clone, PartialEq)]
pub enum StreamAnswer {
    /// Pass the upstream's body on under this status and these headers.
    Relay { status: u16, headers: Vec<(String, String)> },
    /// There is nothing to pass on: answer with this status.
    Refuse { status: u16 },
}

/// An answer as plain values.
pub enum StreamAnswerView {
    Relay { status: u16, headers: Seq<HeaderView> },
    Refuse { status: u16 },
}

impl View for StreamAnswer {
    type V = StreamAnswerView;

    open spec fn view(&self) -> StreamAnswerView {
        match self {
            StreamAnswer::Relay { status, headers } => StreamAnswerView::Relay {
                status: *status,
                headers: headers_view(headers@),
            },
            StreamAnswer::Refuse { status } => StreamAnswerView::Refuse { status: *status },
        }
    }
}

/// The answer to a request for a stream. `upstream` holds the headers of the
/// upstream's response, or nothing where the stream's address could not be
/// had or the upstream did not respond.
///
/// A stream is passed on with status 200 and, of each header name, the first
/// header that the upstream sent. It is not passed on, and the answer is 404,
/// where there is no upstream response or where one of the headers to pass on
/// has a value that is not text.
pub open spec fn answer_for(upstream: Option<Seq<SentHeader>>) -> StreamAnswerView {
    match upstream {
        Some(headers) => if all_text(relayed(headers)) {
            StreamAnswerView::Relay { status: STATUS_OK, headers: as_text(relayed(headers)) }
        } else {
            StreamAnswerView::Refuse { status: STATUS_NOT_FOUND }
        },
        None => StreamAnswerView::Refuse { status: STATUS_NOT_FOUND },
    }
}

/// The view of the upstream's response headers, if there is a response.
pub open spec fn upstream_view(upstream: Option<Vec<(String, Option<String>)>>) -> Option<
    Seq<SentHeader>,
> {
    match upstream {
        Some(headers) => Some(sent_view(headers@)),
        None => None,
    }
}

/// Whether one of the first `upto` headers has the name `name`.
fn sent_before(upstream: &Vec<(String, Option<String>)>, upto: usize, name: &String) -> (yes:
    bool)
    requires
        upto <= upstream.len(),
    ensures
        yes == named(sent_view(upstream@).take(upto as int), name@),
{
    let ghost earlier = sent_view(upstream@).take(upto as int);
    let mut k: usize = 0;
    while k < upto
        invariant
            k <= upto <= upstream.len(),
            earlier == sent_view(upstream@).take(upto as int),
            forall|j: int| 0 <= j < k ==> (#[trigger] earlier[j]).0 != name@,
        decreases upto - k,
    {
        if upstream[k].0 == *name {
            assert(earlier[k as int].0 == name@);
            return true;
        }
        k += 1;
    }
    false
}

/// Decides the answer to a request for a stream.
pub fn stream_answer(upstream: Option<Vec<(String, Option<String>)>>) -> (answer: StreamAnswer)
    ensures
        answer@ == answer_for(upstream_view(upstream)),
{
    let sent = match upstream {
        Some(sent) => sent,
        None => {
            return StreamAnswer::Refuse { status: STATUS_NOT_FOUND };
        },
    };
    let ghost all = sent_view(sent@);
    let mut passed: Vec<(String, String)> = Vec::new();
    let mut i: usize = 0;
    while i < sent.len()
        invariant
            i <= sent.len(),
            all == sent_view(sent@),
            upstream_view(upstream) == Some(all),
            all_text(relayed(all.take(i as int))),
            headers_view(passed@) == as_text(relayed(all.take(i as int))),
        decreases sent.len() - i,
    {
        let repeated = sent_before(&sent, i, &sent[i].0);
        proof {
            assert(all.take(i + 1).drop_last() == all.take(i as int));
            assert(all.take(i + 1).last() == all[i as int]);
        }
        if !repeated {
            let ghost before = relayed(all.take(i as int));
            let ghost after = relayed(all.take(i + 1));
            assert(after == before.push(all[i as int]));
            match &sent[i].1 {
                None => {
                    proof {
                        lemma_relayed_is_kept(all, i + 1);
                        assert(after[after.len() - 1].1 is None);
                        assert(relayed(all)[after.len() - 1] == after[after.len() - 1]);
                        assert(!all_text(relayed(all)));
                    }
                    return StreamAnswer::Refuse { status: STATUS_NOT_FOUND };
                },
                Some(value) => {
                    let ghost old_passed = passed@;
                    passed.push((sent[i].0.clone(), value.clone()));
                    assert(headers_view(passed@) =~= headers_view(old_passed).push(
                        (all[i as int].0, all[i as int].1.unwrap()),
                    ));
                    assert(as_text(after) =~= as_text(before).push(
                        (all[i as int].0, all[i as int].1.unwrap()),
                    ));
                },
            }
        }
        i += 1;
    }
    proof {
        assert(all.take(sent.len() as int) == all);
    }
    StreamAnswer::Relay { status: STATUS_OK, headers: passed }
}

/// What is relayed of a beginning of the headers stays relayed, at the same
/// place, when more headers follow.
proof fn lemma_relayed_is_kept<T>(headers: Seq<(Seq<char>, T)>, upto: int)
    requires
        0 <= upto <= headers.len(),
    ensures
        relayed(headers.take(upto)).len() <= relayed(headers).len(),
        forall|k: int|
            0 <= k < relayed(headers.take(upto)).len() ==> #[trigger] relayed(headers)[k]
                == relayed(headers.take(upto))[k],
    decreases headers.len() - upto,
{
    if upto < headers.len() {
        lemma_relayed_is_kept(headers, upto + 1);
        assert(headers.take(upto + 1).drop_last() == headers.take(upto));
    } else {
        assert(headers.take(upto) == headers);
    }
}

/// Every name that the upstream sent is passed on, and none of them twice.
pub proof fn law_each_name_is_relayed_once<T>(headers: Seq<(Seq<char>, T)>)
    ensures
        forall|name: Seq<char>| named(headers, name) <==> named(relayed(headers), name),
        forall|i: int, j: int|
            0 <= i < j < relayed(headers).len() ==> (#[trigger] relayed(headers)[i]).0 != (
            #[trigger] relayed(headers)[j]).0,
    decreases headers.len(),
{
    if headers.len() > 0 {
        let earlier = headers.drop_last();
        let last = headers.last();
        law_each_name_is_relayed_once(earlier);
        let kept = relayed(earlier);
        let out = relayed(headers);
        assert forall|name: Seq<char>| named(headers, name) <==> named(out, name) by {
            if named(headers, name) {
                let k = choose|k: int| 0 <= k < headers.len() && (#[trigger] headers[k]).0 == name;
                if k < earlier.len() {
                    assert(earlier[k].0 == name);
                    assert(named(earlier, name));
                    assert(named(kept, name));
                    let m = choose|m: int| 0 <= m < kept.len() && (#[trigger] kept[m]).0 == name;
                    assert(out[m].0 == name);
                } else if named(earlier, name) {
                    assert(named(kept, name));
                    let m = choose|m: int| 0 <= m < kept.len() && (#[trigger] kept[m]).0 == name;
                    assert(out[m].0 == name);
                } else {
                    assert(out[out.len() - 1].0 == name);
                }
            }
            if named(out, name) {
                let m = choose|m: int| 0 <= m < out.len() && (#[trigger] out[m]).0 == name;
                if m < kept.len() {
                    assert(kept[m].0 == name);
                    assert(named(kept, name));
                    assert(named(earlier, name));
                    let k = choose|k: int|
                        0 <= k < earlier.len() && (#[trigger] earlier[k]).0 == name;
                    assert(headers[k].0 == name);
                } else {
                    assert(headers[headers.len() - 1].0 == name);
                }
            }
        }
        assert forall|i: int, j: int| 0 <= i < j < out.len() implies (#[trigger] out[i]).0 != (
        #[trigger] out[j]).0 by {
            if j < kept.len() {
                assert(kept[i].0 != kept[j].0);
            } else {
                if out[i].0 == last.0 {
                    assert(kept[i].0 == last.0);
                    assert(named(kept, last.0));
                    assert(named(earlier, last.0));
                }
            }
        }
    }
}

} // verus!
