//! Whole reads of converted samples: what their steps come to together.

use crate::converter;
use crate::errors::{Error, Result};
use crate::streaming::{self, BulkInCompletion, DirectView, ReadProgress, ReadStep, StreamingConfig};
use vstd::prelude::*;

verus! {

/// What a read learns between two of its steps.
pub enum ReadEvent<T, S> {
    /// A transfer completed.
    Completed(BulkInCompletion<T>),
    /// The time was up before a transfer completed.
    TimedOut,
    /// The planned conversion was done. The sample is the last that it produced,
    /// which the stream retains where the plan leaves one pending.
    Converted(S),
}

/// Course of a read.
pub struct ReadCourse<T, S> {
    /// State of the stream.
    pub stream: DirectView<T, S>,
    /// Progress of the read.
    pub progress: ReadProgress,
    /// Completions taken for conversion, or failed.
    pub fresh: nat,
    /// Completions dropped because they are from before a restart.
    pub stale: nat,
    /// Buffers queued again.
    pub requeued: nat,
    /// Result, once the read is over.
    pub result: Option<Result<usize>>,
}

/// Course of a read that ends, or stands still, here.
pub open spec fn standing<T, S>(
    stream: DirectView<T, S>,
    progress: ReadProgress,
    result: Option<Result<usize>>,
) -> ReadCourse<T, S> {
    ReadCourse { stream, progress, fresh: 0, stale: 0, requeued: 0, result }
}

/// Next step of an asynchronous or of a synchronous read.
pub open spec fn step_of<T, S>(
    asynchronous: bool,
    stream: DirectView<T, S>,
    progress: ReadProgress,
) -> ReadStep {
    if asynchronous {
        streaming::async_step(stream, progress)
    } else {
        streaming::sync_step(stream, progress)
    }
}

/// Sample that the stream retains after the planned conversion.
pub open spec fn retained<T, S>(
    stream: DirectView<T, S>,
    progress: ReadProgress,
    last: S,
) -> Option<S> {
    if stream.plan(progress).pending {
        Some(last)
    } else {
        None
    }
}

/// State after a completion from before a restart was dropped.
pub open spec fn after_stale<T, S>(stream: DirectView<T, S>) -> DirectView<T, S> {
    DirectView {
        stats: stream.stats.with_discarded(),
        discard: (stream.discard - 1) as nat,
        ..stream
    }
}

/// Course of a read that goes on from here with these events. It stands still
/// where an event is missing or is not the one that its step asks for.
pub open spec fn read_course<T, S>(
    asynchronous: bool,
    stream: DirectView<T, S>,
    progress: ReadProgress,
    events: Seq<ReadEvent<T, S>>,
) -> ReadCourse<T, S>
    decreases events.len(),
{
    match step_of(asynchronous, stream, progress) {
        ReadStep::Finished => standing(stream, progress, Some(Ok(progress.written))),
        ReadStep::Wait => if events.len() == 0 {
            standing(stream, progress, None)
        } else {
            match events[0] {
                ReadEvent::Completed(completion) => if stream.discard > 0 {
                    let rest = read_course(
                        asynchronous,
                        after_stale(stream),
                        progress,
                        events.drop_first(),
                    );
                    ReadCourse { stale: rest.stale + 1, requeued: rest.requeued + 1, ..rest }
                } else {
                    match streaming::completion_error(
                        completion,
                        streaming::transfer_bytes(stream.config.spec_packing()),
                    ) {
                        Some(error) => ReadCourse {
                            fresh: 1,
                            ..standing(stream.taken(completion), progress, Some(Err(error)))
                        },
                        None => {
                            let rest = read_course(
                                asynchronous,
                                stream.taken(completion),
                                progress,
                                events.drop_first(),
                            );
                            ReadCourse { fresh: rest.fresh + 1, ..rest }
                        },
                    }
                },
                ReadEvent::TimedOut => if asynchronous {
                    standing(stream, progress, None)
                } else {
                    standing(stream, progress, Some(Ok(progress.written)))
                },
                ReadEvent::Converted(_) => standing(stream, progress, None),
            }
        },
        ReadStep::Convert(_) => if events.len() == 0 {
            standing(stream, progress, None)
        } else {
            match events[0] {
                ReadEvent::Converted(last) => {
                    let after = stream.converted(progress, retained(stream, progress, last));
                    match stream.conversion_result(progress) {
                        Err(error) => standing(
                            after,
                            stream.progressed(progress),
                            Some(Err(error)),
                        ),
                        Ok(drained) => {
                            let rest = read_course(
                                asynchronous,
                                after,
                                stream.progressed(progress),
                                events.drop_first(),
                            );
                            ReadCourse {
                                requeued: rest.requeued + if drained is Some {
                                    1nat
                                } else {
                                    0nat
                                },
                                ..rest
                            }
                        },
                    }
                },
                _ => standing(stream, progress, None),
            }
        },
    }
}

/// Whether a stream is open and holds whole conversion groups, as it does
/// between two reads.
pub open spec fn readable<T, S>(stream: DirectView<T, S>) -> bool {
    &&& stream.consistent()
    &&& !stream.closed
    &&& streaming::valid_decimation(stream.config.spec_decimation())
    &&& stream.current is Some ==> stream.aligned()
}

/// Whether a read stands between two steps on a readable stream.
pub open spec fn under_way<T, S>(stream: DirectView<T, S>, progress: ReadProgress) -> bool {
    &&& readable(stream)
    &&& progress.written <= progress.out_len
    &&& stream.pending_iq is Some ==> progress.written == progress.out_len
}

/// Whether the counters have room for so many more completions.
pub open spec fn counters_suffice<T, S>(stream: DirectView<T, S>, completions: nat) -> bool {
    stream.stats.buffers_received + completions <= u64::MAX
}

/// Input bytes that the samples written and retained stand for, and those that
/// are not converted yet.
pub open spec fn accounted_bytes<T, S>(stream: DirectView<T, S>, progress: ReadProgress) -> int {
    let samples = progress.written + if stream.pending_iq is Some { 1int } else { 0 };
    4 * converter::effective_decimation(stream.config.spec_decimation()) * samples + (
    stream.current_len - stream.current_offset)
}

/// An accepted completion keeps a read under way.
proof fn lemma_taken<T, S>(
    stream: DirectView<T, S>,
    progress: ReadProgress,
    completion: BulkInCompletion<T>,
)
    requires
        under_way(stream, progress),
        stream.current is None,
        counters_suffice(stream, 1),
        streaming::completion_error(
            completion,
            streaming::transfer_bytes(stream.config.spec_packing()),
        ) is None,
    ensures
        under_way(stream.taken(completion), progress),
        stream.taken(completion).current is Some,
{
    streaming::law_an_accepted_transfer_is_aligned(stream, completion);
}

/// The planned conversion keeps a read under way and moves it on.
proof fn lemma_converted<T, S>(stream: DirectView<T, S>, progress: ReadProgress, last: S)
    requires
        under_way(stream, progress),
        stream.current is Some,
        progress.written < progress.out_len,
    ensures
        ({
            let after = stream.converted(progress, retained(stream, progress, last));
            let moved = stream.progressed(progress);
            &&& under_way(after, moved)
            &&& moved.out_len == progress.out_len
            &&& moved.written > progress.written
            &&& stream.conversion_result(progress) is Ok
            &&& stream.conversion_result(progress)->Ok_0 is Some <==> after.current is None
            &&& after.config == stream.config
            &&& after.stats == stream.stats
            &&& accounted_bytes(after, moved) == accounted_bytes(stream, progress)
        }),
{
    let pending = retained(stream, progress, last);
    let factor = stream.config.spec_decimation();
    let left = (stream.current_len - stream.current_offset) as usize;
    let room = (progress.out_len - progress.written) as usize;
    let plan = stream.plan(progress);
    streaming::law_an_aligned_conversion_succeeds(stream, progress, pending);
    streaming::law_a_read_never_overruns_the_output(stream, progress);
    converter::law_whole_groups_make_progress(left, factor, room);
    converter::law_conversion_accounts_for_every_byte(left, factor, room);
    let d = converter::effective_decimation(factor);
    let produced = plan.written + if plan.pending { 1int } else { 0 };
    assert(4 * d * (progress.written + produced) == 4 * d * progress.written + 4 * d * produced)
        by (nonlinear_arith);
}

/// Law: a new stream is readable.
pub proof fn law_a_new_stream_is_readable<T, S>(config: StreamingConfig)
    requires
        streaming::valid_decimation(config.spec_decimation()),
    ensures
        readable(DirectView::<T, S>::fresh(config)),
{
}

/// Law: beginning a read on a readable stream hands over the retained sample and
/// accounts for every byte.
pub proof fn law_a_read_begins_under_way<T, S>(stream: DirectView<T, S>, out_len: usize)
    requires
        readable(stream),
        out_len > 0,
    ensures
        under_way(stream.begun(out_len).0, stream.begun(out_len).1),
        accounted_bytes(stream.begun(out_len).0, stream.begun(out_len).1) == accounted_bytes(
            stream,
            ReadProgress { out_len, written: 0 },
        ),
{
}

/// Law: a read takes only transfers that complete, never writes more than was
/// asked for, and leaves a readable stream unless it fails.
pub proof fn law_a_read_leaves_a_readable_stream<T, S>(
    asynchronous: bool,
    stream: DirectView<T, S>,
    progress: ReadProgress,
    events: Seq<ReadEvent<T, S>>,
)
    requires
        under_way(stream, progress),
        counters_suffice(stream, events.len()),
    ensures
        ({
            let course = read_course(asynchronous, stream, progress, events);
            &&& course.progress.out_len == progress.out_len
            &&& progress.written <= course.progress.written <= progress.out_len
            &&& course.fresh + course.stale <= events.len()
            &&& course.stream.config == stream.config
            &&& !(course.result matches Some(Err(_))) ==> under_way(course.stream, course.progress)
        }),
    decreases events.len(),
{
    if events.len() > 0 {
        match step_of(asynchronous, stream, progress) {
            ReadStep::Wait => {
                if let ReadEvent::Completed(completion) = events[0] {
                    if stream.discard > 0 {
                        law_a_read_leaves_a_readable_stream(
                            asynchronous,
                            after_stale(stream),
                            progress,
                            events.drop_first(),
                        );
                    } else if streaming::completion_error(
                        completion,
                        streaming::transfer_bytes(stream.config.spec_packing()),
                    ) is None {
                        lemma_taken(stream, progress, completion);
                        law_a_read_leaves_a_readable_stream(
                            asynchronous,
                            stream.taken(completion),
                            progress,
                            events.drop_first(),
                        );
                    }
                }
            },
            ReadStep::Convert(_) => {
                if let ReadEvent::Converted(last) = events[0] {
                    lemma_converted(stream, progress, last);
                    law_a_read_leaves_a_readable_stream(
                        asynchronous,
                        stream.converted(progress, retained(stream, progress, last)),
                        stream.progressed(progress),
                        events.drop_first(),
                    );
                }
            },
            ReadStep::Finished => {},
        }
    }
}

/// Law: an asynchronous read drains what is buffered already, or takes at most
/// one fresh transfer; and it returns at least one sample where any was asked
/// for.
pub proof fn law_an_asynchronous_read_takes_at_most_one_fresh_transfer<T, S>(
    stream: DirectView<T, S>,
    progress: ReadProgress,
    events: Seq<ReadEvent<T, S>>,
)
    requires
        under_way(stream, progress),
        counters_suffice(stream, events.len()),
    ensures
        ({
            let course = read_course(true, stream, progress, events);
            &&& course.fresh <= 1
            &&& stream.current is Some || progress.written > 0 ==> course.fresh == 0
                && course.stale == 0
            &&& course.result matches Some(Ok(count)) ==> count == course.progress.written && (
            progress.out_len > 0 ==> count > 0)
        }),
    decreases events.len(),
{
    if events.len() > 0 {
        match streaming::async_step(stream, progress) {
            ReadStep::Wait => {
                if let ReadEvent::Completed(completion) = events[0] {
                    if stream.discard > 0 {
                        law_an_asynchronous_read_takes_at_most_one_fresh_transfer(
                            after_stale(stream),
                            progress,
                            events.drop_first(),
                        );
                    } else if streaming::completion_error(
                        completion,
                        streaming::transfer_bytes(stream.config.spec_packing()),
                    ) is None {
                        lemma_taken(stream, progress, completion);
                        law_an_asynchronous_read_takes_at_most_one_fresh_transfer(
                            stream.taken(completion),
                            progress,
                            events.drop_first(),
                        );
                    }
                }
            },
            ReadStep::Convert(_) => {
                if let ReadEvent::Converted(last) = events[0] {
                    lemma_converted(stream, progress, last);
                    law_an_asynchronous_read_takes_at_most_one_fresh_transfer(
                        stream.converted(progress, retained(stream, progress, last)),
                        stream.progressed(progress),
                        events.drop_first(),
                    );
                }
            },
            ReadStep::Finished => {},
        }
    }
}

/// Whether the time is never up in these events.
pub open spec fn untimed<T, S>(events: Seq<ReadEvent<T, S>>) -> bool {
    forall|i: int| 0 <= i < events.len() ==> !(#[trigger] events[i] is TimedOut)
}

/// Law: a synchronous read whose time is not up returns exactly as many samples
/// as were asked for.
pub proof fn law_an_untimed_synchronous_read_is_complete<T, S>(
    stream: DirectView<T, S>,
    progress: ReadProgress,
    events: Seq<ReadEvent<T, S>>,
)
    requires
        under_way(stream, progress),
        counters_suffice(stream, events.len()),
        untimed(events),
    ensures
        read_course(false, stream, progress, events).result matches Some(Ok(count)) ==> count
            == progress.out_len,
    decreases events.len(),
{
    if events.len() > 0 {
        assert(untimed(events.drop_first()));
        match streaming::sync_step(stream, progress) {
            ReadStep::Wait => {
                if let ReadEvent::Completed(completion) = events[0] {
                    if stream.discard > 0 {
                        law_an_untimed_synchronous_read_is_complete(
                            after_stale(stream),
                            progress,
                            events.drop_first(),
                        );
                    } else if streaming::completion_error(
                        completion,
                        streaming::transfer_bytes(stream.config.spec_packing()),
                    ) is None {
                        lemma_taken(stream, progress, completion);
                        law_an_untimed_synchronous_read_is_complete(
                            stream.taken(completion),
                            progress,
                            events.drop_first(),
                        );
                    }
                } else {
                    assert(!(events[0] is TimedOut));
                }
            },
            ReadStep::Convert(_) => {
                if let ReadEvent::Converted(last) = events[0] {
                    lemma_converted(stream, progress, last);
                    law_an_untimed_synchronous_read_is_complete(
                        stream.converted(progress, retained(stream, progress, last)),
                        stream.progressed(progress),
                        events.drop_first(),
                    );
                }
            },
            ReadStep::Finished => {},
        }
    }
}

/// Whether `error` is what is wrong with a completion among these events.
pub open spec fn comes_from_a_completion<T, S>(
    events: Seq<ReadEvent<T, S>>,
    packing: bool,
    error: Error,
) -> bool {
    exists|i: int|
        0 <= i < events.len() && (#[trigger] events[i] matches ReadEvent::Completed(completion)
            && streaming::completion_error(completion, streaming::transfer_bytes(packing)) == Some(
            error,
        ))
}

/// Law: a read fails only with the failure of a completion, and the stream is
/// closed then. In particular no transfer ends in an incomplete conversion
/// group.
pub proof fn law_a_read_fails_only_with_a_transfer<T, S>(
    asynchronous: bool,
    stream: DirectView<T, S>,
    progress: ReadProgress,
    events: Seq<ReadEvent<T, S>>,
)
    requires
        under_way(stream, progress),
        counters_suffice(stream, events.len()),
    ensures
        ({
            let course = read_course(asynchronous, stream, progress, events);
            course.result matches Some(Err(error)) ==> course.stream.closed
                && comes_from_a_completion(events, stream.config.spec_packing(), error)
        }),
    decreases events.len(),
{
    let course = read_course(asynchronous, stream, progress, events);
    let packing = stream.config.spec_packing();
    if events.len() > 0 {
        let later = events.drop_first();
        match step_of(asynchronous, stream, progress) {
            ReadStep::Wait => {
                if let ReadEvent::Completed(completion) = events[0] {
                    if stream.discard > 0 {
                        law_a_read_fails_only_with_a_transfer(
                            asynchronous,
                            after_stale(stream),
                            progress,
                            later,
                        );
                        lemma_completion_stands_later(events, packing, course);
                    } else if streaming::completion_error(
                        completion,
                        streaming::transfer_bytes(packing),
                    ) is None {
                        lemma_taken(stream, progress, completion);
                        law_a_read_fails_only_with_a_transfer(
                            asynchronous,
                            stream.taken(completion),
                            progress,
                            later,
                        );
                        lemma_completion_stands_later(events, packing, course);
                    } else {
                        assert(events[0] is Completed);
                    }
                }
            },
            ReadStep::Convert(_) => {
                if let ReadEvent::Converted(last) = events[0] {
                    lemma_converted(stream, progress, last);
                    law_a_read_fails_only_with_a_transfer(
                        asynchronous,
                        stream.converted(progress, retained(stream, progress, last)),
                        stream.progressed(progress),
                        later,
                    );
                    lemma_completion_stands_later(events, packing, course);
                }
            },
            ReadStep::Finished => {},
        }
    }
}

/// A completion that stands among the later events stands among all of them.
proof fn lemma_completion_stands_later<T, S>(
    events: Seq<ReadEvent<T, S>>,
    packing: bool,
    course: ReadCourse<T, S>,
)
    requires
        events.len() > 0,
        course.result matches Some(Err(error)) ==> comes_from_a_completion(
            events.drop_first(),
            packing,
            error,
        ),
    ensures
        course.result matches Some(Err(error)) ==> comes_from_a_completion(events, packing, error),
{
    if let Some(Err(error)) = course.result {
        let later = events.drop_first();
        let i = choose|i: int|
            0 <= i < later.len() && (#[trigger] later[i] matches ReadEvent::Completed(completion)
                && streaming::completion_error(completion, streaming::transfer_bytes(packing))
                == Some(error));
        assert(later[i] == events[i + 1]);
    }
}

/// Law: unless a read fails, it neither loses nor invents a sample. With each
/// sample counted as the input bytes that it stands for, what is written,
/// retained and not converted yet is what it was before and the fresh transfers.
pub proof fn law_a_read_accounts_for_every_byte<T, S>(
    asynchronous: bool,
    stream: DirectView<T, S>,
    progress: ReadProgress,
    events: Seq<ReadEvent<T, S>>,
)
    requires
        under_way(stream, progress),
        counters_suffice(stream, events.len()),
    ensures
        ({
            let course = read_course(asynchronous, stream, progress, events);
            !(course.result matches Some(Err(_))) ==> accounted_bytes(
                course.stream,
                course.progress,
            ) == accounted_bytes(stream, progress) + course.fresh * streaming::transfer_bytes(
                stream.config.spec_packing(),
            )
        }),
    decreases events.len(),
{
    let bytes = streaming::transfer_bytes(stream.config.spec_packing()) as int;
    assert(0 * bytes == 0);
    if events.len() > 0 {
        match step_of(asynchronous, stream, progress) {
            ReadStep::Wait => {
                if let ReadEvent::Completed(completion) = events[0] {
                    if stream.discard > 0 {
                        law_a_read_accounts_for_every_byte(
                            asynchronous,
                            after_stale(stream),
                            progress,
                            events.drop_first(),
                        );
                    } else if streaming::completion_error(
                        completion,
                        streaming::transfer_bytes(stream.config.spec_packing()),
                    ) is None {
                        lemma_taken(stream, progress, completion);
                        let rest = read_course(
                            asynchronous,
                            stream.taken(completion),
                            progress,
                            events.drop_first(),
                        );
                        law_a_read_accounts_for_every_byte(
                            asynchronous,
                            stream.taken(completion),
                            progress,
                            events.drop_first(),
                        );
                        assert((rest.fresh + 1) * bytes == rest.fresh * bytes + bytes)
                            by (nonlinear_arith);
                    }
                }
            },
            ReadStep::Convert(_) => {
                if let ReadEvent::Converted(last) = events[0] {
                    lemma_converted(stream, progress, last);
                    law_a_read_accounts_for_every_byte(
                        asynchronous,
                        stream.converted(progress, retained(stream, progress, last)),
                        stream.progressed(progress),
                        events.drop_first(),
                    );
                }
            },
            ReadStep::Finished => {},
        }
    }
}

/// Law: unless a read fails, it conserves the buffer pool: every buffer that
/// left the queue is queued again or held by the stream. Every completion is
/// counted, whatever becomes of the read.
pub proof fn law_a_read_conserves_the_pool<T, S>(
    asynchronous: bool,
    stream: DirectView<T, S>,
    progress: ReadProgress,
    events: Seq<ReadEvent<T, S>>,
)
    requires
        under_way(stream, progress),
        counters_suffice(stream, events.len()),
    ensures
        ({
            let course = read_course(asynchronous, stream, progress, events);
            &&& !(course.result matches Some(Err(_))) ==> course.requeued + course.stream.held()
                == course.fresh + course.stale + stream.held()
            &&& course.stream.stats.buffers_received == stream.stats.buffers_received + course.fresh
                + course.stale
            &&& course.stream.stats.buffers_discarded_on_restart
                == stream.stats.buffers_discarded_on_restart + course.stale
            &&& course.stream.stats.balanced()
        }),
    decreases events.len(),
{
    if events.len() > 0 {
        match step_of(asynchronous, stream, progress) {
            ReadStep::Wait => {
                if let ReadEvent::Completed(completion) = events[0] {
                    if stream.discard > 0 {
                        law_a_read_conserves_the_pool(
                            asynchronous,
                            after_stale(stream),
                            progress,
                            events.drop_first(),
                        );
                    } else if streaming::completion_error(
                        completion,
                        streaming::transfer_bytes(stream.config.spec_packing()),
                    ) is None {
                        lemma_taken(stream, progress, completion);
                        law_a_read_conserves_the_pool(
                            asynchronous,
                            stream.taken(completion),
                            progress,
                            events.drop_first(),
                        );
                    }
                }
            },
            ReadStep::Convert(_) => {
                if let ReadEvent::Converted(last) = events[0] {
                    lemma_converted(stream, progress, last);
                    law_a_read_conserves_the_pool(
                        asynchronous,
                        stream.converted(progress, retained(stream, progress, last)),
                        stream.progressed(progress),
                        events.drop_first(),
                    );
                }
            },
            ReadStep::Finished => {},
        }
    }
}

} // verus!
