use vstd::prelude::*;

use crate::block::{record_views, BlockRecord, BlockView};
use crate::channel::{chan_capacity, queued, BridgeChannel};
use crate::driver::{
    Action, Driver, DriverError, DriverState, Event, ResolutionPolicy, SourceMode,
};

verus! {

/// The outcome of the follow-up fetch for one notification. A session is a
/// sequence of these, in the order the notifications were delivered.
#[derive(Debug)]
pub enum Resolution {
    /// The fetch returned the full block.
    Full(BlockRecord),
    /// The fetch found no block for the notification.
    Missing,
}

/// The views of the blocks of the successfully resolved notifications, in
/// notification order.
pub open spec fn found_views(rs: Seq<Resolution>) -> Seq<BlockView>
    decreases rs.len(),
{
    if rs.len() == 0 {
        Seq::<BlockView>::empty()
    } else {
        (match rs[0] {
            Resolution::Full(b) => seq![b@],
            Resolution::Missing => Seq::<BlockView>::empty(),
        }) + found_views(rs.drop_first())
    }
}

/// Every notification in the run resolved successfully.
pub open spec fn missing_free(rs: Seq<Resolution>) -> bool {
    forall|j: int| 0 <= j < rs.len() ==> !(rs[j] is Missing)
}

/// Splitting a run of resolutions splits its resolved views at the same
/// point, in order.
pub proof fn lemma_found_views_split(rs: Seq<Resolution>, i: int)
    requires
        0 <= i <= rs.len(),
    ensures
        found_views(rs) == found_views(rs.take(i)) + found_views(rs.skip(i)),
    decreases i,
{
    if i == 0 {
        assert(rs.take(0) =~= Seq::<Resolution>::empty());
        assert(rs.skip(0) =~= rs);
        assert(found_views(rs.take(0)) + found_views(rs.skip(0)) =~= found_views(rs));
    } else {
        lemma_found_views_split(rs.drop_first(), i - 1);
        assert(rs.take(i)[0] == rs[0]);
        assert(rs.take(i).drop_first() =~= rs.drop_first().take(i - 1));
        assert(rs.skip(i) =~= rs.drop_first().skip(i - 1));
        assert(found_views(rs) =~= found_views(rs.take(i)) + found_views(rs.skip(i)));
    }
}

/// The resolved views of a run with one more resolution at its end: a
/// resolved block appends its view, a failed resolution appends nothing.
pub proof fn lemma_found_views_snoc(rs: Seq<Resolution>, i: int)
    requires
        0 <= i < rs.len(),
    ensures
        rs[i] matches Resolution::Full(b)
            ==> found_views(rs.take(i + 1)) == found_views(rs.take(i)).push(b@),
        rs[i] is Missing ==> found_views(rs.take(i + 1)) == found_views(rs.take(i)),
{
    lemma_found_views_split(rs.take(i + 1), i);
    assert(rs.take(i + 1).take(i) =~= rs.take(i));
    let single = rs.take(i + 1).skip(i);
    assert(single =~= seq![rs[i]]);
    assert(single.drop_first() =~= Seq::<Resolution>::empty());
    assert(found_views(single.drop_first()) =~= Seq::<BlockView>::empty());
    if rs[i] is Missing {
        assert(found_views(single) =~= Seq::<BlockView>::empty());
        assert(found_views(rs.take(i + 1)) =~= found_views(rs.take(i)));
    } else {
        let b = rs[i]->Full_0;
        assert(found_views(single) =~= seq![b@]);
        assert(found_views(rs.take(i + 1)) =~= found_views(rs.take(i)).push(b@));
    }
}

/// Order preservation, stated pointwise: when every notification resolves,
/// the resolved views line up one for one with the notifications, in the
/// same order.
pub proof fn lemma_order_preserved(rs: Seq<Resolution>)
    requires
        missing_free(rs),
    ensures
        found_views(rs).len() == rs.len(),
        forall|j: int| 0 <= j < rs.len()
            ==> #[trigger] found_views(rs)[j] == rs[j]->Full_0@,
    decreases rs.len(),
{
    if rs.len() > 0 {
        assert(!(rs[0] is Missing));
        assert(missing_free(rs.drop_first())) by {
            assert forall|k: int| 0 <= k < rs.drop_first().len()
                implies !(#[trigger] rs.drop_first()[k] is Missing) by {
                assert(rs.drop_first()[k] == rs[k + 1]);
            }
        }
        lemma_order_preserved(rs.drop_first());
        assert(found_views(rs) == seq![rs[0]->Full_0@] + found_views(rs.drop_first()));
        assert forall|j: int| 0 <= j < rs.len()
            implies #[trigger] found_views(rs)[j] == rs[j]->Full_0@ by {
            if j > 0 {
                assert(rs.drop_first()[j - 1] == rs[j]);
                assert(found_views(rs)[j] == found_views(rs.drop_first())[j - 1]);
            }
        }
    }
}

/// One whole receive-loop run over a sequence of notification outcomes: the
/// subscription driver connects, subscribes, and processes each notification
/// in delivery order, each block fully resolved and handed to a fresh bridge
/// channel with `capacity` slots before the next notification is taken.
///
/// When the channel is at capacity the consumer drains it first
/// (back-pressure), and whatever is still queued at the end is drained last.
/// Under the skip policy a failed resolution is passed over and every later
/// notification is still processed; under the fatal policy the run stops at
/// the first failed resolution with a resolution error, and nothing after
/// it is processed.
///
/// The consumer's drain order always equals the notification order: the
/// delivered views are exactly the resolved views of the processed prefix.
pub fn run_session(
    policy: ResolutionPolicy,
    resolutions: &Vec<Resolution>,
    capacity: usize,
) -> (r: (Vec<BlockRecord>, Option<DriverError>))
    requires
        1 <= capacity,
    ensures
        policy is Skip ==> r.1 is None && record_views(r.0@) == found_views(resolutions@),
        policy is Fatal ==> (exists|i: int|
            0 <= i <= resolutions@.len()
            && missing_free(#[trigger] resolutions@.take(i))
            && record_views(r.0@) == found_views(resolutions@.take(i))
            && (i < resolutions@.len() ==> (resolutions@[i] is Missing
                && r.1 == Some(DriverError::Resolution)))
            && (i == resolutions@.len() ==> r.1 is None)),
{
    let mut driver = Driver {
        state: DriverState::Connecting,
        mode: SourceMode::Subscription,
        policy,
    };
    let mut chan = BridgeChannel::new(capacity);
    let mut delivered: Vec<BlockRecord> = Vec::new();
    let mut err: Option<DriverError> = None;
    let mut stopped: bool = false;
    let mut i: usize = 0;
    let connect_action = driver.step(Event::ConnectOk);
    assert(connect_action is Subscribe);
    let subscribe_action = driver.step(Event::SubscribeOk);
    assert(subscribe_action is AwaitNotification);
    assert(driver.state is Listening);
    while i < resolutions.len() && !stopped
        invariant
            i <= resolutions@.len(),
            1 <= capacity,
            chan_capacity(chan) == capacity as nat,
            queued(chan).len() <= capacity as nat,
            record_views(delivered@) + queued(chan) == found_views(resolutions@.take(i as int)),
            driver.mode is Subscription,
            driver.policy == policy,
            !stopped ==> driver.state is Listening,
            stopped ==> driver.state == (DriverState::Stopped {
                error: Some(DriverError::Resolution),
            }),
            policy is Skip ==> !stopped,
            !stopped ==> err is None,
            policy is Fatal && !stopped ==> (forall|j: int|
                0 <= j < i ==> !(#[trigger] resolutions@[j] is Missing)),
            stopped ==> (policy is Fatal && i < resolutions@.len()
                && resolutions@[i as int] is Missing
                && (forall|j: int| 0 <= j < i ==> !(#[trigger] resolutions@[j] is Missing))
                && err == Some(DriverError::Resolution)),
        decreases resolutions@.len() - i + (if stopped { 0int } else { 1int }),
    {
        proof {
            lemma_found_views_snoc(resolutions@, i as int);
        }
        match &resolutions[i] {
            Resolution::Full(b) => {
                let fetch_action = driver.step(Event::Notification { id: b.hash });
                assert(fetch_action == Action::FetchBlock { id: b.hash });
                let send_action = driver.step(Event::FetchOk { block: b.duplicate() });
                assert(send_action is SendRecord);
                let mut spilled = chan.send_with_backpressure(b.duplicate());
                proof {
                    assert(record_views(delivered@ + spilled@) =~= record_views(delivered@)
                        + record_views(spilled@));
                }
                delivered.append(&mut spilled);
                proof {
                    assert(record_views(delivered@) + queued(chan) =~= found_views(
                        resolutions@.take(i as int + 1),
                    ));
                }
                let resume_action = driver.step(Event::SendCompleted);
                assert(resume_action is AwaitNotification);
                assert(driver.state is Listening);
                i = i + 1;
            },
            Resolution::Missing => {
                let fetch_action = driver.step(Event::Notification { id: 0 });
                assert(fetch_action == Action::FetchBlock { id: 0 });
                let skip_action = driver.step(Event::FetchNotFound);
                match policy {
                    ResolutionPolicy::Skip => {
                        assert(skip_action is AwaitNotification);
                        assert(driver.state is Listening);
                        i = i + 1;
                    },
                    ResolutionPolicy::Fatal => {
                        assert(skip_action is Halt);
                        err = Some(DriverError::Resolution);
                        stopped = true;
                    },
                }
            },
        }
    }
    let ghost stop: int = i as int;
    let mut rest = chan.try_drain();
    proof {
        assert(record_views(delivered@ + rest@) =~= record_views(delivered@) + record_views(
            rest@,
        ));
    }
    delivered.append(&mut rest);
    proof {
        if !stopped {
            assert(resolutions@.take(stop) =~= resolutions@);
        }
        assert(record_views(delivered@) =~= found_views(resolutions@.take(stop)));
        if policy is Fatal {
            assert forall|k: int| 0 <= k < resolutions@.take(stop).len()
                implies !(#[trigger] resolutions@.take(stop)[k] is Missing) by {
                assert(resolutions@.take(stop)[k] == resolutions@[k]);
            }
            assert(missing_free(resolutions@.take(stop)));
        }
    }
    (delivered, err)
}

} // verus!
