//! Planning the delivery of one event.
//!
//! An event goes out twice: once to the broadcast channel, unless the package
//! is banned from it, and once to each subscriber of the package, one after
//! the other with a pause after each. The two flows are independent and may
//! run side by side. The functions here say what to send where; the driver
//! sends, and a failed send never changes what the others get.

use crate::extract::{EventKind, EventView, LifecycleEvent};
use crate::sender::SendOptions;
use vstd::prelude::*;

verus! {

/// The settings of the dispatcher.
#[derive(Debug, Clone, PartialEq, Eq)]
pub struct DispatchConfig {
    /// The broadcast channel, if there is one.
    pub channel: Option<i64>,
    /// The packages that are never announced on the broadcast channel.
    pub banned: Vec<String>,
    /// The pause after each message to a subscriber, in milliseconds.
    pub fanout_delay_millis: u64,
}

/// One message to send: where to, and how.
#[derive(Debug, Clone, Copy, PartialEq, Eq, Structural)]
pub struct Outbound {
    pub destination: i64,
    pub options: SendOptions,
}

/// One step of the delivery to the subscribers.
#[derive(Debug, Clone, Copy, PartialEq, Eq, Structural)]
pub enum FanoutStep {
    /// Send the message.
    Send(Outbound),
    /// Pause.
    Wait { millis: u64 },
}

/// Messages on the broadcast channel notify its readers.
pub open spec fn broadcast_options() -> SendOptions {
    SendOptions { silent: false, disable_preview: true }
}

/// Messages to subscribers arrive silently.
pub open spec fn fanout_options() -> SendOptions {
    SendOptions { silent: true, disable_preview: true }
}

/// The word that says what happened.
pub open spec fn action_word(kind: EventKind) -> Seq<char> {
    match kind {
        EventKind::NewVersion => "updated"@,
        EventKind::Yanked => "yanked"@,
        EventKind::Unyanked => "unyanked"@,
    }
}

/// Links to the pages of a package version.
pub open spec fn links_text(name: Seq<char>, vers: Seq<char>) -> Seq<char> {
    "[<a href='https://docs.rs/"@ + name + "/"@ + vers + "'>docs.rs</a>] "@
        + "[<a href='https://crates.io/crates/"@ + name + "/"@ + vers + "'>crates.io</a>] "@
        + "[<a href='https://lib.rs/crates/"@ + name + "'>lib.rs</a>]"@
}

/// The text that announces an event.
pub open spec fn message_text(event: EventView) -> Seq<char> {
    "Crate was "@ + action_word(event.kind) + ": <code>"@ + event.record.name + "#"@
        + event.record.vers + "</code> "@ + links_text(event.record.name, event.record.vers)
}

/// Whether a package is on the list of banned packages.
pub open spec fn is_banned(banned: Seq<String>, name: Seq<char>) -> bool {
    exists|i: int| 0 <= i < banned.len() && (#[trigger] banned[i])@ == name
}

/// The broadcast for a package: to the channel, if one is set and the
/// package is not banned.
pub open spec fn broadcast_target(channel: Option<i64>, banned: Seq<String>, name: Seq<char>)
    -> Option<Outbound> {
    match channel {
        Some(destination) if !is_banned(banned, name) => Some(
            Outbound { destination, options: broadcast_options() },
        ),
        _ => None,
    }
}

/// The subscribers that a lookup gives. A failed lookup counts as no
/// subscribers.
pub open spec fn recipients<E>(lookup: Result<Vec<i64>, E>) -> Seq<i64> {
    match lookup {
        Ok(subscribers) => subscribers@,
        Err(_) => Seq::empty(),
    }
}

/// The delivery to the subscribers: in the order of the lookup, a silent
/// message to each, and a pause after each message.
pub open spec fn fanout_steps(subscribers: Seq<i64>, delay: u64) -> Seq<FanoutStep> {
    Seq::new(
        2 * subscribers.len(),
        |i: int|
            if i % 2 == 0 {
                FanoutStep::Send(
                    Outbound { destination: subscribers[i / 2], options: fanout_options() },
                )
            } else {
                FanoutStep::Wait { millis: delay }
            },
    )
}

/// The time that a sequence of steps spends pausing, in milliseconds.
pub open spec fn total_wait(steps: Seq<FanoutStep>) -> nat
    decreases steps.len(),
{
    if steps.len() == 0 {
        0
    } else {
        total_wait(steps.drop_last()) + match steps.last() {
            FanoutStep::Wait { millis } => millis as nat,
            FanoutStep::Send(_) => 0,
        }
    }
}

/// Looks a package up in the list of banned packages.
pub fn banned(list: &[String], name: &String) -> (r: bool)
    ensures
        r == is_banned(list@, name@),
{
    let mut i: usize = 0;
    while i < list.len()
        invariant
            i <= list.len(),
            forall|k: int| 0 <= k < i ==> (#[trigger] list@[k])@ != name@,
        decreases list.len() - i,
    {
        if list[i] == *name {
            return true;
        }
        i = i + 1;
    }
    false
}

/// The links to the pages of a package version.
pub fn links_for(name: &String, vers: &String) -> (r: String)
    ensures
        r@ == links_text(name@, vers@),
{
    let mut text = String::new();
    text.append("[<a href='https://docs.rs/");
    text.append(name.as_str());
    text.append("/");
    text.append(vers.as_str());
    text.append("'>docs.rs</a>] ");
    text.append("[<a href='https://crates.io/crates/");
    text.append(name.as_str());
    text.append("/");
    text.append(vers.as_str());
    text.append("'>crates.io</a>] ");
    text.append("[<a href='https://lib.rs/crates/");
    text.append(name.as_str());
    text.append("'>lib.rs</a>]");
    assert(text@ =~= links_text(name@, vers@));
    text
}

/// The message that announces an event.
pub fn message_for(event: &LifecycleEvent) -> (r: String)
    ensures
        r@ == message_text(event@),
{
    let mut text = String::new();
    text.append("Crate was ");
    text.append(
        match event.kind {
            EventKind::NewVersion => "updated",
            EventKind::Yanked => "yanked",
            EventKind::Unyanked => "unyanked",
        },
    );
    text.append(": <code>");
    text.append(event.record.name.as_str());
    text.append("#");
    text.append(event.record.vers.as_str());
    text.append("</code> ");
    let links = links_for(&event.record.name, &event.record.vers);
    text.append(links.as_str());
    assert(text@ =~= message_text(event@));
    text
}

/// Where to broadcast an event, if anywhere.
pub fn broadcast_for(config: &DispatchConfig, event: &LifecycleEvent) -> (r: Option<Outbound>)
    ensures
        r == broadcast_target(config.channel, config.banned@, event@.record.name),
{
    match config.channel {
        Some(destination) => {
            if banned(config.banned.as_slice(), &event.record.name) {
                None
            } else {
                Some(
                    Outbound {
                        destination,
                        options: SendOptions { silent: false, disable_preview: true },
                    },
                )
            }
        },
        None => None,
    }
}

/// The subscribers to deliver to, given what the lookup returned.
pub fn subscribers_of<E>(lookup: Result<Vec<i64>, E>) -> (r: Vec<i64>)
    ensures
        r@ == recipients(lookup),
{
    match lookup {
        Ok(subscribers) => subscribers,
        Err(_) => Vec::new(),
    }
}

/// Lays out the delivery to the subscribers.
pub fn fanout_for(subscribers: &[i64], delay: u64) -> (r: Vec<FanoutStep>)
    ensures
        r@ == fanout_steps(subscribers@, delay),
{
    let mut steps: Vec<FanoutStep> = Vec::new();
    let mut i: usize = 0;
    while i < subscribers.len()
        invariant
            i <= subscribers.len(),
            steps@ =~= fanout_steps(subscribers@.take(i as int), delay),
        decreases subscribers.len() - i,
    {
        steps.push(
            FanoutStep::Send(
                Outbound {
                    destination: subscribers[i],
                    options: SendOptions { silent: true, disable_preview: true },
                },
            ),
        );
        steps.push(FanoutStep::Wait { millis: delay });
        i = i + 1;
    }
    assert(subscribers@.take(subscribers.len() as int) =~= subscribers@);
    steps
}

/// A banned package is never broadcast, and its subscribers still get their
/// messages: each of them, in order, whatever the list of banned packages
/// holds.
pub proof fn lemma_banned_package_still_fans_out(
    channel: Option<i64>,
    banned: Seq<String>,
    name: Seq<char>,
    subscribers: Seq<i64>,
    delay: u64,
)
    requires
        is_banned(banned, name),
    ensures
        broadcast_target(channel, banned, name) is None,
        fanout_steps(subscribers, delay).len() == 2 * subscribers.len(),
        forall|i: int|
            0 <= i < subscribers.len() ==> #[trigger] fanout_steps(subscribers, delay)[2 * i]
                == FanoutStep::Send(
                Outbound { destination: subscribers[i], options: fanout_options() },
            ),
{
}

/// A package that is not banned is broadcast wherever a channel is set.
pub proof fn lemma_unbanned_package_is_broadcast(
    destination: i64,
    banned: Seq<String>,
    name: Seq<char>,
)
    requires
        !is_banned(banned, name),
    ensures
        broadcast_target(Some(destination), banned, name) == Some(
            Outbound { destination, options: broadcast_options() },
        ),
{
}

/// The fan-out pauses after every message: the delivery to `n` subscribers
/// pauses for `n` times the delay in all, which is at least `n - 1` times the
/// delay.
pub proof fn lemma_fanout_takes_its_time(subscribers: Seq<i64>, delay: u64)
    ensures
        total_wait(fanout_steps(subscribers, delay)) == subscribers.len() * delay,
        total_wait(fanout_steps(subscribers, delay)) >= (subscribers.len() - 1) * delay,
    decreases subscribers.len(),
{
    let steps = fanout_steps(subscribers, delay);
    if subscribers.len() > 0 {
        let fewer = subscribers.drop_last();
        lemma_fanout_takes_its_time(fewer, delay);
        assert(steps.drop_last().drop_last() =~= fanout_steps(fewer, delay));
        assert(steps.last() == FanoutStep::Wait { millis: delay });
        assert(steps.drop_last().last() is Send);
        assert(total_wait(steps.drop_last()) == total_wait(steps.drop_last().drop_last()));
        assert(total_wait(steps) == total_wait(steps.drop_last()) + delay);
        assert(subscribers.len() * delay == fewer.len() * delay + delay) by (nonlinear_arith)
            requires
                subscribers.len() == fewer.len() + 1,
        ;
        assert((subscribers.len() - 1) * delay <= subscribers.len() * delay) by (nonlinear_arith)
            requires
                delay >= 0,
        ;
    } else {
        assert(steps.len() == 0);
        assert(subscribers.len() * delay == 0) by (nonlinear_arith)
            requires
                subscribers.len() == 0,
        ;
        assert((subscribers.len() - 1) * delay <= 0) by (nonlinear_arith)
            requires
                subscribers.len() == 0,
                delay >= 0,
        ;
    }
}

} // verus!
