//! What holds of whole loads: what the viewer is told, in which order, and what it then holds.

use crate::document::{described, MetaAnswer, Page, PageBounds};
use crate::loader::{
    begun, failed, listed_so_far, measured_so_far, over, page_failure, resumed, Answer, LoadState,
    Order,
};
use crate::message::Notice;
use crate::nav::Items;
use crate::outside::url_file_path;
use crate::viewer::{place_from, AppState};
use vstd::prelude::*;

verus! {

/// What the viewer is told in a load that stands at `from` and then gets `answers`.
pub open spec fn told<D, I>(from: (LoadState<D, I>, Order<D, I>), answers: Seq<Answer<D>>) -> Seq<
    Notice<D, I>,
>
    decreases answers.len(),
{
    let own = match from.1 {
        Order::Send(notice) => seq![notice],
        _ => seq![],
    };
    if answers.len() == 0 {
        own
    } else {
        own + told(resumed(from.0, answers[0]), answers.drop_first())
    }
}

/// Where a load stands that stood at `from` and then got `answers`.
pub open spec fn reached<D, I>(
    from: (LoadState<D, I>, Order<D, I>),
    answers: Seq<Answer<D>>,
) -> (LoadState<D, I>, Order<D, I>)
    decreases answers.len(),
{
    if answers.len() == 0 {
        from
    } else {
        reached(resumed(from.0, answers[0]), answers.drop_first())
    }
}

/// The answers to the requests to record the pages from `start` on, when nothing fails.
pub open spec fn listing<D>(lists: Seq<D>, start: int) -> Seq<Answer<D>>
    decreases lists.len() - start,
{
    if start >= lists.len() {
        seq![]
    } else {
        seq![Answer::Listed(lists[start]), Answer::Sent] + listing(lists, start + 1)
    }
}

/// The answers from the measuring of the page `start` on, when nothing fails.
pub open spec fn measuring<D>(bounds: Seq<PageBounds>, lists: Seq<D>, start: int) -> Seq<Answer<D>>
    decreases bounds.len() - start,
{
    if start >= bounds.len() {
        seq![Answer::Sent] + listing(lists, 0)
    } else {
        seq![Answer::Measured(bounds[start])] + measuring(bounds, lists, start + 1)
    }
}

/// The answers that a load gets when nothing fails.
pub open spec fn smooth<D>(meta: MetaAnswer, bounds: Seq<PageBounds>, lists: Seq<D>) -> Seq<
    Answer<D>,
> {
    seq![
        Answer::Opened(bounds.len() as i32),
        Answer::Described(meta),
        Answer::Sent,
    ] + measuring(bounds, lists, 0)
}

/// The pages with the given edges, and nothing else known of them.
pub open spec fn blank_pages<D, I>(bounds: Seq<PageBounds>) -> Seq<Page<D, I>> {
    Seq::new(bounds.len(), |i: int| Page::blank(i as i32, bounds[i]))
}

/// The news of the records from `start` on.
pub open spec fn list_notices<D, I>(lists: Seq<D>, start: int) -> Seq<Notice<D, I>> {
    Seq::new(
        (lists.len() - start) as nat,
        |i: int| Notice::DisplayList((start + i) as i32, lists[start + i]),
    )
}

proof fn lemma_finished_is_silent<D, I>(answers: Seq<Answer<D>>)
    ensures
        told(over::<D, I>(), answers) == Seq::<Notice<D, I>>::empty(),
        reached(over::<D, I>(), answers) == over::<D, I>(),
    decreases answers.len(),
{
    if answers.len() > 0 {
        assert(resumed(LoadState::<D, I>::Finished, answers[0]) == over::<D, I>());
        lemma_finished_is_silent::<D, I>(answers.drop_first());
    }
    assert(told(over::<D, I>(), answers) =~= Seq::<Notice<D, I>>::empty());
}

proof fn lemma_listing<D, I>(count: i32, lists: Seq<D>, start: int)
    requires
        0 <= start <= lists.len() <= count,
    ensures
        told(listed_so_far::<D, I>(count, start), listing(lists, start)) == list_notices::<D, I>(
            lists,
            start,
        ),
        reached(listed_so_far::<D, I>(count, start), listing(lists, start)) == listed_so_far::<
            D,
            I,
        >(count, lists.len() as int),
    decreases lists.len() - start,
{
    let from = listed_so_far::<D, I>(count, start);
    let answers = listing(lists, start);
    if start < lists.len() {
        lemma_listing::<D, I>(count, lists, start + 1);
        let rest = listing(lists, start + 1);
        let mid = resumed(from.0, answers[0]);
        assert(answers[0] == Answer::Listed(lists[start]));
        assert(answers.drop_first() =~= seq![Answer::Sent] + rest);
        assert(answers.drop_first()[0] == Answer::<D>::Sent);
        assert(answers.drop_first().drop_first() =~= rest);
        assert(resumed(mid.0, Answer::Sent) == listed_so_far::<D, I>(count, start + 1));
        assert(told(from, answers) =~= told(mid, answers.drop_first()));
        assert(told(mid, answers.drop_first()) =~= seq![
            Notice::DisplayList(start as i32, lists[start]),
        ] + told(listed_so_far::<D, I>(count, start + 1), rest));
        assert(told(from, answers) =~= list_notices::<D, I>(lists, start));
        assert(reached(from, answers) == reached(mid, answers.drop_first()));
        assert(reached(mid, answers.drop_first()) == reached(
            listed_so_far::<D, I>(count, start + 1),
            rest,
        ));
    } else {
        assert(told(from, answers) =~= list_notices::<D, I>(lists, start));
    }
}

proof fn lemma_measuring<D, I>(bounds: Seq<PageBounds>, lists: Seq<D>, start: int)
    requires
        0 <= start <= bounds.len() <= i32::MAX,
        lists.len() == bounds.len(),
    ensures
        told(
            measured_so_far::<D, I>(
                bounds.len() as i32,
                blank_pages::<D, I>(bounds).take(start),
            ),
            measuring(bounds, lists, start),
        ) == seq![Notice::Pages(blank_pages::<D, I>(bounds))] + list_notices::<D, I>(lists, 0),
        reached(
            measured_so_far::<D, I>(
                bounds.len() as i32,
                blank_pages::<D, I>(bounds).take(start),
            ),
            measuring(bounds, lists, start),
        ) == over::<D, I>(),
    decreases bounds.len() - start,
{
    let count = bounds.len() as i32;
    let all = blank_pages::<D, I>(bounds);
    let from = measured_so_far::<D, I>(count, all.take(start));
    let answers = measuring(bounds, lists, start);
    if start < bounds.len() {
        lemma_measuring::<D, I>(bounds, lists, start + 1);
        assert(answers.drop_first() =~= measuring(bounds, lists, start + 1));
        assert(all.take(start).push(Page::blank(start as i32, bounds[start])) =~= all.take(
            start + 1,
        ));
        let mid = measured_so_far::<D, I>(count, all.take(start + 1));
        assert(resumed(from.0, answers[0]) == mid);
        assert(told(from, answers) =~= told(mid, answers.drop_first()));
    } else {
        assert(all.take(start) =~= all);
        lemma_listing::<D, I>(count, lists, 0);
        assert(answers.drop_first() =~= listing(lists, 0));
        assert(resumed(from.0, answers[0]) == listed_so_far::<D, I>(count, 0));
    }
}

/// In a load in which nothing fails the viewer is told of the description first, then of all
/// pages at once, in order, and then of the record of each page, in order. The load then ends.
pub proof fn smooth_load_tells_everything_in_order<D, I>(
    url: Seq<char>,
    meta: MetaAnswer,
    bounds: Seq<PageBounds>,
    lists: Seq<D>,
)
    requires
        url_file_path(url) is Some,
        bounds.len() <= i32::MAX,
        lists.len() == bounds.len(),
    ensures
        told(begun::<D, I>(url), smooth(meta, bounds, lists)) == seq![
            Notice::DocumentMeta(described(meta, bounds.len() as i32, url_file_path(url)->0)),
            Notice::Pages(blank_pages::<D, I>(bounds)),
        ] + list_notices::<D, I>(lists, 0),
        reached(begun::<D, I>(url), smooth(meta, bounds, lists)) == over::<D, I>(),
{
    let count = bounds.len() as i32;
    let path = url_file_path(url)->0;
    let a0 = smooth(meta, bounds, lists);
    let a1 = a0.drop_first();
    let a2 = a1.drop_first();
    let a3 = a2.drop_first();
    assert(a3 =~= measuring(bounds, lists, 0));
    assert(a0[0] == Answer::<D>::Opened(count));
    assert(a1[0] == Answer::<D>::Described(meta));
    assert(a2[0] == Answer::<D>::Sent);
    let s0 = begun::<D, I>(url);
    let s1 = resumed(s0.0, a0[0]);
    let s2 = resumed(s1.0, a1[0]);
    let s3 = resumed(s2.0, a2[0]);
    assert(blank_pages::<D, I>(bounds).take(0) =~= Seq::<Page<D, I>>::empty());
    assert(s3 == measured_so_far::<D, I>(count, Seq::empty()));
    lemma_measuring::<D, I>(bounds, lists, 0);
    assert(told(s2, a2) =~= seq![Notice::DocumentMeta(described(meta, count, path))] + told(
        s3,
        a3,
    ));
    assert(told(s1, a1) =~= told(s2, a2));
    assert(told(s0, a0) =~= told(s1, a1));
    assert(reached(s2, a2) == reached(s3, a3));
    assert(reached(s1, a1) == reached(s2, a2));
    assert(reached(s0, a0) == reached(s1, a1));
    assert(told(s0, a0) =~= seq![
        Notice::DocumentMeta(described(meta, count, path)),
        Notice::Pages(blank_pages::<D, I>(bounds)),
    ] + list_notices::<D, I>(lists, 0));
}

proof fn lemma_error_is_last<D, I>(
    from: (LoadState<D, I>, Order<D, I>),
    answers: Seq<Answer<D>>,
    k: int,
)
    requires
        from.1 matches Order::Send(Notice::LoadError(_)) ==> from.0 is Finished,
        0 <= k < told(from, answers).len(),
        told(from, answers)[k] is LoadError,
    ensures
        k == told(from, answers).len() - 1,
        reached(from, answers).0 is Finished,
    decreases answers.len(),
{
    if answers.len() > 0 {
        let next = resumed(from.0, answers[0]);
        let rest = answers.drop_first();
        if from.1 is Send && k == 0 {
            assert(from.0 is Finished);
            lemma_finished_is_silent::<D, I>(rest);
        } else {
            let inner = if from.1 is Send {
                k - 1
            } else {
                k
            };
            lemma_error_is_last(next, rest, inner);
        }
    }
}

/// Whatever happens in a load, an error is the last thing that the viewer is told.
pub proof fn error_is_the_last_notice<D, I>(url: Seq<char>, answers: Seq<Answer<D>>, k: int)
    requires
        0 <= k < told(begun::<D, I>(url), answers).len(),
        told(begun::<D, I>(url), answers)[k] is LoadError,
    ensures
        k == told(begun::<D, I>(url), answers).len() - 1,
        reached(begun::<D, I>(url), answers).0 is Finished,
{
    lemma_error_is_last(begun::<D, I>(url), answers, k);
}

/// What is told by an order itself.
spec fn own_notice<D, I>(order: Order<D, I>) -> Seq<Notice<D, I>> {
    match order {
        Order::Send(notice) => seq![notice],
        _ => seq![],
    }
}

/// What is told after `from`, its own notice left out.
spec fn told_later<D, I>(
    from: (LoadState<D, I>, Order<D, I>),
    answers: Seq<Answer<D>>,
) -> Seq<Notice<D, I>> {
    if answers.len() == 0 {
        seq![]
    } else {
        told(resumed(from.0, answers[0]), answers.drop_first())
    }
}

proof fn lemma_told_in_two_parts<D, I>(
    from: (LoadState<D, I>, Order<D, I>),
    first: Seq<Answer<D>>,
    second: Seq<Answer<D>>,
)
    ensures
        told(from, first + second) == told(from, first) + told_later(
            reached(from, first),
            second,
        ),
        reached(from, first + second) == reached(reached(from, first), second),
    decreases first.len(),
{
    if first.len() == 0 {
        assert(first + second =~= second);
        assert(told(from, second) =~= own_notice(from.1) + told_later(from, second));
        assert(told(from, first) =~= own_notice(from.1));
    } else {
        let next = resumed(from.0, first[0]);
        assert((first + second).drop_first() =~= first.drop_first() + second);
        lemma_told_in_two_parts(next, first.drop_first(), second);
        assert(told(from, first + second) =~= told(from, first) + told_later(
            reached(from, first),
            second,
        ));
    }
}

/// The answers by which a document is opened and described, and the description taken.
pub open spec fn opening<D>(page_count: i32, meta: MetaAnswer) -> Seq<Answer<D>> {
    seq![Answer::Opened(page_count), Answer::Described(meta), Answer::Sent]
}

/// The answers by which pages are measured.
pub open spec fn edges<D>(bounds: Seq<PageBounds>) -> Seq<Answer<D>> {
    Seq::new(bounds.len(), |i: int| Answer::Measured(bounds[i]))
}

proof fn lemma_opening<D, I>(url: Seq<char>, page_count: i32, meta: MetaAnswer)
    requires
        url_file_path(url) is Some,
    ensures
        ({
            let from = begun::<D, I>(url);
            let answers = opening::<D>(page_count, meta);
            let end = if page_count < 0 {
                failed::<D, I>(
                    "Invalid page count: out of range integral type conversion attempted"@,
                )
            } else {
                measured_so_far::<D, I>(page_count, Seq::empty())
            };
            &&& told(from, answers) == seq![
                Notice::DocumentMeta(described(meta, page_count, url_file_path(url)->0)),
            ] + own_notice(end.1)
            &&& reached(from, answers) == end
        }),
{
    let a0 = opening::<D>(page_count, meta);
    let a1 = a0.drop_first();
    let a2 = a1.drop_first();
    let a3 = a2.drop_first();
    assert(a1[0] == Answer::<D>::Described(meta));
    assert(a2[0] == Answer::<D>::Sent);
    assert(a3 =~= seq![]);
    let s0 = begun::<D, I>(url);
    let s1 = resumed(s0.0, a0[0]);
    let s2 = resumed(s1.0, a1[0]);
    let s3 = resumed(s2.0, a2[0]);
    assert(told(s3, a3) =~= own_notice(s3.1));
    assert(told(s2, a2) =~= own_notice(s2.1) + told(s3, a3));
    assert(told(s1, a1) =~= told(s2, a2));
    assert(told(s0, a0) =~= told(s1, a1));
    assert(reached(s3, a3) == s3);
    assert(reached(s2, a2) == s3);
    assert(reached(s1, a1) == s3);
    assert(reached(s0, a0) == s3);
}

proof fn lemma_edges<D, I>(count: i32, bounds: Seq<PageBounds>)
    requires
        bounds.len() <= count,
    ensures
        ({
            let from = measured_so_far::<D, I>(count, Seq::empty());
            let end = measured_so_far::<D, I>(count, blank_pages::<D, I>(bounds));
            &&& told(from, edges::<D>(bounds)) == own_notice(end.1)
            &&& reached(from, edges::<D>(bounds)) == end
        }),
    decreases bounds.len(),
{
    let from = measured_so_far::<D, I>(count, Seq::empty());
    let end = measured_so_far::<D, I>(count, blank_pages::<D, I>(bounds));
    let answers = edges::<D>(bounds);
    if bounds.len() == 0 {
        assert(blank_pages::<D, I>(bounds) =~= Seq::empty());
        assert(told(from, answers) =~= own_notice(end.1));
    } else {
        let before = bounds.drop_last();
        let pages = blank_pages::<D, I>(before);
        let mid = measured_so_far::<D, I>(count, pages);
        let last = seq![Answer::<D>::Measured(bounds.last())];
        lemma_edges::<D, I>(count, before);
        assert(answers =~= edges::<D>(before) + last);
        lemma_told_in_two_parts(from, edges::<D>(before), last);
        assert(pages.push(Page::blank(pages.len() as i32, bounds.last())) =~= blank_pages::<D, I>(
            bounds,
        ));
        assert(resumed(mid.0, last[0]) == end);
        assert(last.drop_first() =~= seq![]);
        assert(told(end, last.drop_first()) =~= own_notice(end.1));
        assert(told(from, answers) =~= own_notice(end.1));
        assert(reached(mid, last) == reached(end, last.drop_first()));
    }
}

/// Nothing follows a failure but the report of it.
proof fn lemma_failure_ends<D, I>(
    from: (LoadState<D, I>, Order<D, I>),
    failure: Answer<D>,
    text: Seq<char>,
    rest: Seq<Answer<D>>,
)
    requires
        resumed(from.0, failure) == failed::<D, I>(text),
    ensures
        told_later(from, seq![failure] + rest) == seq![Notice::<D, I>::LoadError(text)],
{
    let answers = seq![failure] + rest;
    let next = failed::<D, I>(text);
    assert(answers.drop_first() =~= rest);
    if rest.len() > 0 {
        assert(resumed(next.0, rest[0]) == over::<D, I>());
        lemma_finished_is_silent::<D, I>(rest.drop_first());
    }
    assert(told(next, rest) =~= seq![Notice::<D, I>::LoadError(text)]);
}

/// Where the document cannot be opened, or its pages cannot be counted, the viewer is told so
/// and nothing else.
pub proof fn nothing_precedes_a_failure_to_open<D, I>(
    url: Seq<char>,
    error: Seq<char>,
    rest: Seq<Answer<D>>,
)
    requires
        url_file_path(url) is Some,
    ensures
        told(begun::<D, I>(url), seq![Answer::<D>::NoDocument(error)] + rest) == seq![
            Notice::<D, I>::LoadError("Failed to open document: "@ + error),
        ],
        told(begun::<D, I>(url), seq![Answer::<D>::NoPageCount(error)] + rest) == seq![
            Notice::<D, I>::LoadError("Failed to get page count: "@ + error),
        ],
{
    let from = begun::<D, I>(url);
    let opened = Answer::<D>::NoDocument(error);
    let counted = Answer::<D>::NoPageCount(error);
    lemma_failure_ends(from, opened, "Failed to open document: "@ + error, rest);
    lemma_failure_ends(from, counted, "Failed to get page count: "@ + error, rest);
    assert(told(from, seq![opened] + rest) =~= told_later(from, seq![opened] + rest));
    assert(told(from, seq![counted] + rest) =~= told_later(from, seq![counted] + rest));
}

/// Where the number of pages is negative, the viewer is told of the description and then of
/// the failure.
pub proof fn description_precedes_a_bad_page_count<D, I>(
    url: Seq<char>,
    page_count: i32,
    meta: MetaAnswer,
    rest: Seq<Answer<D>>,
)
    requires
        url_file_path(url) is Some,
        page_count < 0,
    ensures
        told(begun::<D, I>(url), opening::<D>(page_count, meta) + rest) == seq![
            Notice::<D, I>::DocumentMeta(described(meta, page_count, url_file_path(url)->0)),
            Notice::<D, I>::LoadError(
                "Invalid page count: out of range integral type conversion attempted"@,
            ),
        ],
{
    let from = begun::<D, I>(url);
    let first = opening::<D>(page_count, meta);
    lemma_opening::<D, I>(url, page_count, meta);
    lemma_told_in_two_parts(from, first, rest);
    let end = reached(from, first);
    if rest.len() > 0 {
        assert(resumed(end.0, rest[0]) == over::<D, I>());
        lemma_finished_is_silent::<D, I>(rest.drop_first());
    }
    assert(told_later(end, rest) =~= seq![]);
    assert(told(from, first + rest) =~= seq![
        Notice::<D, I>::DocumentMeta(described(meta, page_count, url_file_path(url)->0)),
        Notice::<D, I>::LoadError(
            "Invalid page count: out of range integral type conversion attempted"@,
        ),
    ]);
}

/// Where the page behind those with the edges `bounds` cannot be loaded or measured, the
/// viewer is told of the description and then of the failure: it gets no pages.
pub proof fn description_precedes_a_failure_to_measure<D, I>(
    url: Seq<char>,
    page_count: i32,
    meta: MetaAnswer,
    bounds: Seq<PageBounds>,
    error: Seq<char>,
    rest: Seq<Answer<D>>,
)
    requires
        url_file_path(url) is Some,
        bounds.len() < page_count,
    ensures
        ({
            let from = begun::<D, I>(url);
            let before = opening::<D>(page_count, meta) + edges::<D>(bounds);
            let info = described(meta, page_count, url_file_path(url)->0);
            let index = bounds.len() as i32;
            &&& told(from, before + (seq![Answer::<D>::NoPage(error)] + rest)) == seq![
                Notice::<D, I>::DocumentMeta(info),
                Notice::<D, I>::LoadError(page_failure("Failed to load page "@, index, error)),
            ]
            &&& told(from, before + (seq![Answer::<D>::NoBounds(error)] + rest)) == seq![
                Notice::<D, I>::DocumentMeta(info),
                Notice::<D, I>::LoadError(
                    page_failure("Failed to get bounds for page "@, index, error),
                ),
            ]
        }),
{
    let from = begun::<D, I>(url);
    let before = opening::<D>(page_count, meta) + edges::<D>(bounds);
    let info = described(meta, page_count, url_file_path(url)->0);
    let index = bounds.len() as i32;
    lemma_measured::<D, I>(url, page_count, meta, bounds);
    let end = reached(from, before);
    let load = page_failure("Failed to load page "@, index, error);
    let measure = page_failure("Failed to get bounds for page "@, index, error);
    let unloaded = seq![Answer::<D>::NoPage(error)] + rest;
    let unmeasured = seq![Answer::<D>::NoBounds(error)] + rest;
    lemma_failure_ends(end, Answer::<D>::NoPage(error), load, rest);
    lemma_failure_ends(end, Answer::<D>::NoBounds(error), measure, rest);
    lemma_told_in_two_parts(from, before, unloaded);
    lemma_told_in_two_parts(from, before, unmeasured);
    assert(told(from, before + unloaded) =~= seq![
        Notice::<D, I>::DocumentMeta(info),
        Notice::<D, I>::LoadError(load),
    ]);
    assert(told(from, before + unmeasured) =~= seq![
        Notice::<D, I>::DocumentMeta(info),
        Notice::<D, I>::LoadError(measure),
    ]);
}

proof fn lemma_measured<D, I>(
    url: Seq<char>,
    page_count: i32,
    meta: MetaAnswer,
    bounds: Seq<PageBounds>,
)
    requires
        url_file_path(url) is Some,
        bounds.len() <= page_count,
    ensures
        ({
            let from = begun::<D, I>(url);
            let answers = opening::<D>(page_count, meta) + edges::<D>(bounds);
            let end = measured_so_far::<D, I>(page_count, blank_pages::<D, I>(bounds));
            &&& told(from, answers) == seq![
                Notice::DocumentMeta(described(meta, page_count, url_file_path(url)->0)),
            ] + own_notice(end.1)
            &&& reached(from, answers) == end
        }),
{
    let from = begun::<D, I>(url);
    let first = opening::<D>(page_count, meta);
    let second = edges::<D>(bounds);
    let mid = measured_so_far::<D, I>(page_count, Seq::empty());
    let end = measured_so_far::<D, I>(page_count, blank_pages::<D, I>(bounds));
    lemma_opening::<D, I>(url, page_count, meta);
    lemma_edges::<D, I>(page_count, bounds);
    lemma_told_in_two_parts(from, first, second);
    let own = seq![Notice::DocumentMeta(described(meta, page_count, url_file_path(url)->0))];
    if bounds.len() == 0 {
        assert(second =~= seq![]);
        assert(told_later(mid, second) =~= seq![]);
        assert(blank_pages::<D, I>(bounds) =~= Seq::empty());
    } else {
        assert(own_notice(mid.1) =~= seq![]);
        assert(told(mid, second) =~= told_later(mid, second));
    }
    assert(told(from, first + second) =~= own + own_notice(end.1));
}

/// Where the page behind those recorded as `lists` cannot be loaded or recorded, the viewer
/// is told of the description, of all pages, of these records in order, and then of the
/// failure.
pub proof fn earlier_records_precede_a_failure_to_record<D, I>(
    url: Seq<char>,
    meta: MetaAnswer,
    bounds: Seq<PageBounds>,
    lists: Seq<D>,
    error: Seq<char>,
    rest: Seq<Answer<D>>,
)
    requires
        url_file_path(url) is Some,
        lists.len() < bounds.len() <= i32::MAX,
    ensures
        ({
            let from = begun::<D, I>(url);
            let page_count = bounds.len() as i32;
            let before = opening::<D>(page_count, meta) + edges::<D>(bounds) + seq![
                Answer::<D>::Sent,
            ] + listing(lists, 0);
            let index = lists.len() as i32;
            let heard = seq![
                Notice::<D, I>::DocumentMeta(
                    described(meta, page_count, url_file_path(url)->0),
                ),
                Notice::<D, I>::Pages(blank_pages::<D, I>(bounds)),
            ] + list_notices::<D, I>(lists, 0);
            &&& told(from, before + (seq![Answer::<D>::NoPage(error)] + rest)) == heard.push(
                Notice::LoadError(page_failure("Failed to load page "@, index, error)),
            )
            &&& told(from, before + (seq![Answer::<D>::NoList(error)] + rest)) == heard.push(
                Notice::LoadError(
                    page_failure("Failed to create display list for page "@, index, error),
                ),
            )
        }),
{
    let from = begun::<D, I>(url);
    let page_count = bounds.len() as i32;
    let index = lists.len() as i32;
    let measured = opening::<D>(page_count, meta) + edges::<D>(bounds);
    let sent = seq![Answer::<D>::Sent];
    let taken = listing(lists, 0);
    let before = measured + sent + taken;
    let pages = blank_pages::<D, I>(bounds);
    let heard = seq![
        Notice::<D, I>::DocumentMeta(described(meta, page_count, url_file_path(url)->0)),
        Notice::<D, I>::Pages(pages),
    ] + list_notices::<D, I>(lists, 0);

    lemma_measured::<D, I>(url, page_count, meta, bounds);
    let s1 = measured_so_far::<D, I>(page_count, pages);
    let s2 = listed_so_far::<D, I>(page_count, 0);
    let s3 = listed_so_far::<D, I>(page_count, index as int);
    assert(s1.1 == Order::Send(Notice::<D, I>::Pages(pages)));
    lemma_listing::<D, I>(page_count, lists, 0);

    // The pages are taken, and the first record is asked for.
    lemma_told_in_two_parts(from, measured, sent);
    assert(sent.drop_first() =~= seq![]);
    assert(resumed(s1.0, sent[0]) == s2);
    assert(told(s2, sent.drop_first()) =~= seq![]);
    assert(told_later(s1, sent) =~= seq![]);
    assert(reached(s1, sent) == reached(s2, sent.drop_first()));
    assert(reached(from, measured + sent) == s2);

    // The records are taken.
    lemma_told_in_two_parts(from, measured + sent, taken);
    assert(told(s2, taken) =~= own_notice(s2.1) + told_later(s2, taken));
    assert(own_notice(s2.1) =~= seq![]);
    assert(told_later(s2, taken) =~= list_notices::<D, I>(lists, 0));
    assert(told(from, before) =~= heard);
    assert(reached(from, before) == s3);

    let load = page_failure("Failed to load page "@, index, error);
    let record = page_failure("Failed to create display list for page "@, index, error);
    let unloaded = seq![Answer::<D>::NoPage(error)] + rest;
    let unlisted = seq![Answer::<D>::NoList(error)] + rest;
    lemma_failure_ends(s3, Answer::<D>::NoPage(error), load, rest);
    lemma_failure_ends(s3, Answer::<D>::NoList(error), record, rest);
    lemma_told_in_two_parts(from, before, unloaded);
    lemma_told_in_two_parts(from, before, unlisted);
    assert(told(from, before + unloaded) =~= heard.push(Notice::LoadError(load)));
    assert(told(from, before + unlisted) =~= heard.push(Notice::LoadError(record)));
}

/// What a load may tell as its notice number `j`: first the description, then the pages, then
/// the records by the numbers of their pages, or, at any point, an error.
pub open spec fn in_its_place<D, I>(notice: Notice<D, I>, j: int) -> bool {
    match notice {
        Notice::LoadError(_) => true,
        Notice::DocumentMeta(_) => j == 0,
        Notice::Pages(_) => j == 1,
        Notice::DisplayList(index, _) => j == index + 2 && index >= 0,
        _ => false,
    }
}

/// Whether `j` notices are behind a load that stands at `from`.
spec fn told_before<D, I>(from: (LoadState<D, I>, Order<D, I>), j: int) -> bool {
    &&& from.0.wf()
    &&& match from {
        (LoadState::Opening { .. }, Order::Open(_)) => j == 0,
        (LoadState::Describing { .. }, Order::Describe) => j == 0,
        (LoadState::SendingMeta { .. }, Order::Send(Notice::DocumentMeta(_))) => j == 0,
        (LoadState::Measuring { .. }, Order::Measure(_)) => j == 1,
        (LoadState::SendingPages { .. }, Order::Send(Notice::Pages(_))) => j == 1,
        (LoadState::Listing { index, .. }, Order::List(_)) => j == index + 2,
        (
            LoadState::SendingList { index, .. },
            Order::Send(Notice::DisplayList(sent, _)),
        ) => sent == index && j == index + 2,
        (LoadState::Finished, Order::Send(Notice::LoadError(_))) => true,
        (LoadState::Finished, Order::Finish) => true,
        _ => false,
    }
}

proof fn lemma_in_its_place<D, I>(
    from: (LoadState<D, I>, Order<D, I>),
    answers: Seq<Answer<D>>,
    j: int,
    k: int,
)
    requires
        told_before(from, j),
        0 <= k < told(from, answers).len(),
    ensures
        in_its_place(told(from, answers)[k], j + k),
    decreases answers.len(),
{
    if answers.len() > 0 {
        let next = resumed(from.0, answers[0]);
        let rest = answers.drop_first();
        if from.1 is Send {
            if k > 0 {
                lemma_in_its_place(next, rest, j + 1, k - 1);
            }
        } else {
            lemma_in_its_place(next, rest, j, k);
        }
    }
}

/// Whatever happens in a load, before an error the viewer is told of the description, then of
/// the pages, then of the records in the order of their pages, as far as the load got.
pub proof fn notices_come_in_their_order<D, I>(url: Seq<char>, answers: Seq<Answer<D>>, k: int)
    requires
        0 <= k < told(begun::<D, I>(url), answers).len(),
    ensures
        in_its_place(told(begun::<D, I>(url), answers)[k], k),
{
    lemma_in_its_place(begun::<D, I>(url), answers, 0, k);
}

/// A viewer that no longer listens is told nothing more.
pub proof fn closed_viewer_hears_nothing_more<D, I>(
    state: LoadState<D, I>,
    answers: Seq<Answer<D>>,
)
    ensures
        told(resumed(state, Answer::Closed), answers) == Seq::<Notice<D, I>>::empty(),
        reached(resumed(state, Answer::Closed), answers) == over::<D, I>(),
{
    assert(resumed(state, Answer::Closed) == over::<D, I>());
    lemma_finished_is_silent::<D, I>(answers);
}

/// A URL that stands for no file is reported at once, and nothing else happens.
pub proof fn bad_url_is_only_reported<D, I>(url: Seq<char>, answers: Seq<Answer<D>>)
    requires
        url_file_path(url) is None,
    ensures
        told(begun::<D, I>(url), answers) == seq![
            Notice::<D, I>::LoadError("Invalid URL path: ()"@),
        ],
{
    if answers.len() > 0 {
        assert(resumed(LoadState::<D, I>::Finished, answers[0]) == over::<D, I>());
        lemma_finished_is_silent::<D, I>(answers.drop_first());
    }
    assert(told(begun::<D, I>(url), answers) =~= seq![
        Notice::<D, I>::LoadError("Invalid URL path: ()"@),
    ]);
}

/// How many replies a load can still take, at most.
pub open spec fn replies_left<D, I>(state: LoadState<D, I>) -> int {
    match state {
        LoadState::Opening { .. } => 3 * i32::MAX + 5,
        LoadState::Describing { page_count, .. } => if page_count < 0 {
            2
        } else {
            3 * page_count + 4
        },
        LoadState::SendingMeta { page_count } => if page_count < 0 {
            1
        } else {
            3 * page_count + 3
        },
        LoadState::Measuring { page_count, pages } => 3 * page_count - pages.len() + 2,
        LoadState::SendingPages { page_count } => if page_count < 0 {
            1
        } else {
            2 * page_count + 1
        },
        LoadState::Listing { page_count, index } => 2 * (page_count - index),
        LoadState::SendingList { page_count, index } => 2 * (page_count - index) - 1,
        LoadState::Finished => 0,
    }
}

/// Every load ends: each reply lowers a number that stays positive until the end.
pub proof fn every_load_ends<D, I>(state: LoadState<D, I>, answer: Answer<D>)
    requires
        state.wf(),
        !(state is Finished),
    ensures
        replies_left(state) > 0,
        0 <= replies_left(resumed(state, answer).0) < replies_left(state),
        resumed(state, answer).0.wf(),
{
}

/// A load asks for pages of the document only.
pub proof fn requests_stay_in_the_document<D, I>(state: LoadState<D, I>, answer: Answer<D>)
    requires
        state.wf(),
    ensures
        ({
            let (next, order) = resumed(state, answer);
            &&& order matches Order::Measure(index) ==> (next matches LoadState::Measuring {
                page_count,
                pages,
            } && index == pages.len() && 0 <= index < page_count)
            &&& order matches Order::List(index) ==> (next matches LoadState::Listing {
                page_count,
                index: next_index,
            } && index == next_index && 0 <= index < page_count)
        }),
{
}

/// The state of a viewer after a series of messages.
pub open spec fn after_all<D, I>(state: AppState<D, I>, notices: Seq<Notice<D, I>>) -> AppState<
    D,
    I,
>
    decreases notices.len(),
{
    if notices.len() == 0 {
        state
    } else {
        after_all(state.after(notices[0]), notices.drop_first())
    }
}

/// The pages with the given edges, the first `count` of them recorded.
pub open spec fn recorded_pages<D, I>(
    bounds: Seq<PageBounds>,
    lists: Seq<D>,
    count: int,
) -> Seq<Page<D, I>> {
    Seq::new(
        bounds.len(),
        |i: int|
            Page {
                display_list: if i < count {
                    Some(lists[i])
                } else {
                    None
                },
                ..Page::<D, I>::blank(i as i32, bounds[i])
            },
    )
}

proof fn lemma_numbered_place<D, I>(pages: Seq<Page<D, I>>, index: i32, start: int)
    requires
        0 <= start <= index < pages.len() <= i32::MAX,
        forall|i: int| 0 <= i < pages.len() ==> (#[trigger] pages[i]).index == i,
    ensures
        place_from(pages, index, start) == Some(index as int),
    decreases index - start,
{
    if start < index {
        lemma_numbered_place(pages, index, start + 1);
    }
}

proof fn lemma_take_lists<D, I>(
    state: AppState<D, I>,
    bounds: Seq<PageBounds>,
    lists: Seq<D>,
    start: int,
)
    requires
        0 <= start <= lists.len() <= i32::MAX,
        lists.len() == bounds.len(),
        state.nav.items == recorded_pages::<D, I>(bounds, lists, start),
    ensures
        after_all(state, list_notices::<D, I>(lists, start)) == (AppState {
            nav: Items {
                items: recorded_pages::<D, I>(bounds, lists, lists.len() as int),
                ..state.nav
            },
            ..state
        }),
    decreases lists.len() - start,
{
    let notices = list_notices::<D, I>(lists, start);
    if start < lists.len() {
        let next = state.after(notices[0]);
        assert(notices[0] == Notice::<D, I>::DisplayList(start as i32, lists[start]));
        lemma_numbered_place(state.nav.items, start as i32, 0);
        assert(next.nav.items =~= recorded_pages::<D, I>(bounds, lists, start + 1));
        assert(notices.drop_first() =~= list_notices::<D, I>(lists, start + 1));
        lemma_take_lists(next, bounds, lists, start + 1);
    } else {
        assert(notices =~= seq![]);
    }
}

/// A load in which nothing fails leaves the viewer with the description and with every page
/// of the document recorded and in its place, showing the first one. Nothing else changes.
pub proof fn smooth_load_fills_the_viewer<D, I>(
    state: AppState<D, I>,
    url: Seq<char>,
    meta: MetaAnswer,
    bounds: Seq<PageBounds>,
    lists: Seq<D>,
)
    requires
        url_file_path(url) is Some,
        bounds.len() <= i32::MAX,
        lists.len() == bounds.len(),
    ensures
        after_all(state, told(begun::<D, I>(url), smooth(meta, bounds, lists))) == (AppState {
            document_meta: Some(
                described(meta, bounds.len() as i32, url_file_path(url)->0),
            ),
            nav: (Items {
                items: recorded_pages::<D, I>(bounds, lists, lists.len() as int),
                ..state.nav.cleared()
            }).activated_at(0),
            ..state
        }),
{
    smooth_load_tells_everything_in_order::<D, I>(url, meta, bounds, lists);
    let notices = told(begun::<D, I>(url), smooth(meta, bounds, lists));
    let one = state.after(notices[0]);
    let two = one.after(notices[1]);
    let n1 = notices.drop_first();
    let n2 = n1.drop_first();
    assert(n1[0] == notices[1]);
    assert(n2 =~= list_notices::<D, I>(lists, 0));
    assert(blank_pages::<D, I>(bounds) =~= recorded_pages::<D, I>(bounds, lists, 0));
    lemma_take_lists(two, bounds, lists, 0);
    assert(notices.len() >= 2);
    assert(after_all(state, notices) == after_all(one, n1));
    assert(after_all(one, n1) == after_all(two, n2));
}

proof fn lemma_after_all_last<D, I>(state: AppState<D, I>, notices: Seq<Notice<D, I>>)
    requires
        notices.len() > 0,
    ensures
        after_all(state, notices) == after_all(state, notices.drop_last()).after(notices.last()),
    decreases notices.len(),
{
    if notices.len() > 1 {
        assert(notices.drop_first().drop_last() =~= notices.drop_last().drop_first());
        lemma_after_all_last(state.after(notices[0]), notices.drop_first());
        assert(notices.drop_first().last() == notices.last());
        assert(notices.drop_last()[0] == notices[0]);
    } else {
        assert(notices.drop_first() =~= seq![]);
        assert(notices.drop_last() =~= seq![]);
        assert(after_all(state.after(notices[0]), notices.drop_first()) == state.after(notices[0]));
    }
}

/// A load that fails leaves the viewer with the error, and without pages or a description.
pub proof fn failed_load_empties_the_viewer<D, I>(
    state: AppState<D, I>,
    url: Seq<char>,
    answers: Seq<Answer<D>>,
    k: int,
)
    requires
        0 <= k < told(begun::<D, I>(url), answers).len(),
        told(begun::<D, I>(url), answers)[k] is LoadError,
    ensures
        ({
            let notices = told(begun::<D, I>(url), answers);
            let end = after_all(state, notices);
            &&& end.load_error == Some(notices[k]->LoadError_0)
            &&& end.document_meta is None
            &&& end.nav.items.len() == 0
            &&& end.nav.active is None
        }),
{
    let notices = told(begun::<D, I>(url), answers);
    error_is_the_last_notice::<D, I>(url, answers, k);
    lemma_after_all_last(state, notices);
}

/// Whatever messages come, a viewer that has just started stays sound.
pub proof fn every_reachable_state_is_sound<D, I>(
    url: Option<Seq<char>>,
    notices: Seq<Notice<D, I>>,
)
    ensures
        after_all(AppState::<D, I>::initial(url), notices).wf(),
{
    lemma_stays_sound(AppState::<D, I>::initial(url), notices);
}

proof fn lemma_stays_sound<D, I>(state: AppState<D, I>, notices: Seq<Notice<D, I>>)
    requires
        state.wf(),
    ensures
        after_all(state, notices).wf(),
    decreases notices.len(),
{
    if notices.len() > 0 {
        crate::viewer::messages_keep_the_state_sound(state, notices[0]);
        lemma_stays_sound(state.after(notices[0]), notices.drop_first());
    }
}

} // verus!
