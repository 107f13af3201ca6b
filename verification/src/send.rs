//! The steps of one transmission to the keyboard.
//!
//! The library decides what is asked of the USB stack next and what an answer
//! means; the caller asks the stack and hands its answers back, one by one:
//! open the device, let the kernel driver be detached, read how many
//! configurations the device has, then for each configuration read how many
//! interfaces it has and claim each of them, and at last write the control
//! transfer and see that all of its payload was written.

use crate::error::{KeyboardError, UsbOperation};
use vstd::prelude::*;

verus! {

/// What the USB stack answered to an operation.
#[derive(Debug, Clone, Copy, PartialEq, Eq, Structural)]
pub enum UsbReply {
    /// The operation failed.
    Failed,
    /// The device was opened, the detachment was set or the interface was
    /// claimed.
    Done,
    /// The descriptor was read: the number of configurations of the device,
    /// or of interfaces of the configuration.
    Count(u8),
    /// The control transfer wrote that many bytes.
    Written(usize),
}

/// How far a transmission has come: the operation whose answer is awaited,
/// or how the transmission ended.
#[derive(Debug, Clone, Copy, PartialEq, Eq, Structural)]
pub enum SendState {
    /// The device is to be opened.
    Opening,
    /// Automatic detachment of the kernel driver is to be set.
    Detaching,
    /// The device descriptor is to be read.
    ReadingDevice,
    /// The descriptor of configuration `config` is to be read.
    ReadingConfig { config: u8, configurations: u8 },
    /// Interface `interface` is to be claimed, for configuration `config`.
    Claiming { config: u8, configurations: u8, interface: u8, interfaces: u8 },
    /// The control transfer is to be written.
    Writing,
    /// The whole payload was written.
    Sent,
    /// The transmission was given up.
    Failed(KeyboardError),
}

/// The state that turns to configuration `config` of `configurations`: its
/// descriptor is read if there is such a configuration, else every interface
/// is claimed and the transfer is written.
pub open spec fn enter_config(config: int, configurations: u8) -> SendState {
    if 0 <= config < configurations {
        SendState::ReadingConfig { config: config as u8, configurations }
    } else {
        SendState::Writing
    }
}

/// The state that turns to interface `interface` of the `interfaces` of
/// configuration `config`: it is claimed if there is such an interface, else
/// the next configuration is turned to.
pub open spec fn enter_interface(
    config: u8,
    configurations: u8,
    interface: int,
    interfaces: u8,
) -> SendState {
    if 0 <= interface < interfaces {
        SendState::Claiming { config, configurations, interface: interface as u8, interfaces }
    } else {
        enter_config(config + 1, configurations)
    }
}

impl SendState {
    /// The operation whose answer is awaited, if the transmission has not
    /// ended.
    pub open spec fn spec_awaits(self) -> Option<UsbOperation> {
        match self {
            SendState::Opening => Some(UsbOperation::Open),
            SendState::Detaching => Some(UsbOperation::SetAutoDetach),
            SendState::ReadingDevice => Some(UsbOperation::ReadDeviceDescriptor),
            SendState::ReadingConfig { .. } => Some(UsbOperation::ReadConfigDescriptor),
            SendState::Claiming { .. } => Some(UsbOperation::ClaimInterface),
            SendState::Writing => Some(UsbOperation::WriteControl),
            SendState::Sent => None,
            SendState::Failed(_) => None,
        }
    }

    /// How the transmission ended, if it has.
    pub open spec fn spec_outcome(self) -> Option<Result<(), KeyboardError>> {
        match self {
            SendState::Sent => Some(Ok(())),
            SendState::Failed(e) => Some(Err(e)),
            _ => None,
        }
    }

    /// The state after `reply` to the awaited operation, for a payload of
    /// `payload_len` bytes. An answer that is a failure, or is not an answer
    /// to the awaited operation, ends the transmission with that operation's
    /// transport error; a write of fewer bytes than the payload has ends it as
    /// a short write. A transmission that has ended stays as it is.
    pub open spec fn next(self, reply: UsbReply, payload_len: nat) -> SendState {
        match self {
            SendState::Opening => match reply {
                UsbReply::Done => SendState::Detaching,
                _ => SendState::Failed(KeyboardError::Transport(UsbOperation::Open)),
            },
            SendState::Detaching => match reply {
                UsbReply::Done => SendState::ReadingDevice,
                _ => SendState::Failed(KeyboardError::Transport(UsbOperation::SetAutoDetach)),
            },
            SendState::ReadingDevice => match reply {
                UsbReply::Count(configurations) => enter_config(0, configurations),
                _ => SendState::Failed(
                    KeyboardError::Transport(UsbOperation::ReadDeviceDescriptor),
                ),
            },
            SendState::ReadingConfig { config, configurations } => match reply {
                UsbReply::Count(interfaces) => enter_interface(
                    config,
                    configurations,
                    0,
                    interfaces,
                ),
                _ => SendState::Failed(
                    KeyboardError::Transport(UsbOperation::ReadConfigDescriptor),
                ),
            },
            SendState::Claiming { config, configurations, interface, interfaces } => match reply {
                UsbReply::Done => enter_interface(
                    config,
                    configurations,
                    interface + 1,
                    interfaces,
                ),
                _ => SendState::Failed(KeyboardError::Transport(UsbOperation::ClaimInterface)),
            },
            SendState::Writing => match reply {
                UsbReply::Written(written) => if written >= payload_len {
                    SendState::Sent
                } else {
                    SendState::Failed(KeyboardError::ShortWrite)
                },
                _ => SendState::Failed(KeyboardError::Transport(UsbOperation::WriteControl)),
            },
            SendState::Sent => SendState::Sent,
            SendState::Failed(e) => SendState::Failed(e),
        }
    }

    /// Whether the configuration and the interface that the state speaks of
    /// exist: they are below the numbers that the descriptors gave.
    pub open spec fn in_bounds(self) -> bool {
        match self {
            SendState::ReadingConfig { config, configurations } => config < configurations,
            SendState::Claiming { config, configurations, interface, interfaces } => config
                < configurations && interface < interfaces,
            _ => true,
        }
    }

    /// The state in which every transmission starts.
    pub fn start() -> (state: SendState)
        ensures
            state == SendState::Opening,
    {
        SendState::Opening
    }

    /// The operation whose answer is awaited, if the transmission has not
    /// ended.
    #[verifier::when_used_as_spec(spec_awaits)]
    pub fn awaits(self) -> (operation: Option<UsbOperation>)
        ensures
            operation == self.spec_awaits(),
    {
        match self {
            SendState::Opening => Some(UsbOperation::Open),
            SendState::Detaching => Some(UsbOperation::SetAutoDetach),
            SendState::ReadingDevice => Some(UsbOperation::ReadDeviceDescriptor),
            SendState::ReadingConfig { .. } => Some(UsbOperation::ReadConfigDescriptor),
            SendState::Claiming { .. } => Some(UsbOperation::ClaimInterface),
            SendState::Writing => Some(UsbOperation::WriteControl),
            SendState::Sent => None,
            SendState::Failed(_) => None,
        }
    }

    /// How the transmission ended, if it has.
    #[verifier::when_used_as_spec(spec_outcome)]
    pub fn outcome(self) -> (outcome: Option<Result<(), KeyboardError>>)
        ensures
            outcome == self.spec_outcome(),
    {
        match self {
            SendState::Sent => Some(Ok(())),
            SendState::Failed(e) => Some(Err(e)),
            _ => None,
        }
    }

    /// Takes the answer of the USB stack to the awaited operation and says
    /// what comes next.
    pub fn advance(self, reply: UsbReply, payload_len: usize) -> (state: SendState)
        ensures
            state == self.next(reply, payload_len as nat),
    {
        match self {
            SendState::Opening => match reply {
                UsbReply::Done => SendState::Detaching,
                _ => SendState::Failed(KeyboardError::Transport(UsbOperation::Open)),
            },
            SendState::Detaching => match reply {
                UsbReply::Done => SendState::ReadingDevice,
                _ => SendState::Failed(KeyboardError::Transport(UsbOperation::SetAutoDetach)),
            },
            SendState::ReadingDevice => match reply {
                UsbReply::Count(configurations) => first_config(0, configurations),
                _ => SendState::Failed(
                    KeyboardError::Transport(UsbOperation::ReadDeviceDescriptor),
                ),
            },
            SendState::ReadingConfig { config, configurations } => match reply {
                UsbReply::Count(interfaces) => first_interface(
                    config,
                    configurations,
                    0,
                    interfaces,
                ),
                _ => SendState::Failed(
                    KeyboardError::Transport(UsbOperation::ReadConfigDescriptor),
                ),
            },
            SendState::Claiming { config, configurations, interface, interfaces } => match reply {
                UsbReply::Done => {
                    if interface < interfaces {
                        first_interface(config, configurations, interface + 1, interfaces)
                    } else {
                        first_interface(config, configurations, interfaces, interfaces)
                    }
                },
                _ => SendState::Failed(KeyboardError::Transport(UsbOperation::ClaimInterface)),
            },
            SendState::Writing => match reply {
                UsbReply::Written(written) => if written >= payload_len {
                    SendState::Sent
                } else {
                    SendState::Failed(KeyboardError::ShortWrite)
                },
                _ => SendState::Failed(KeyboardError::Transport(UsbOperation::WriteControl)),
            },
            SendState::Sent => SendState::Sent,
            SendState::Failed(e) => SendState::Failed(e),
        }
    }
}

/// Turns to configuration `config`, which is at most `configurations`.
fn first_config(config: u8, configurations: u8) -> (state: SendState)
    ensures
        state == enter_config(config as int, configurations),
{
    if config < configurations {
        SendState::ReadingConfig { config, configurations }
    } else {
        SendState::Writing
    }
}

/// Turns to interface `interface` of configuration `config`.
fn first_interface(config: u8, configurations: u8, interface: u8, interfaces: u8) -> (state:
    SendState)
    ensures
        interface <= interfaces ==> state == enter_interface(
            config,
            configurations,
            interface as int,
            interfaces,
        ),
{
    if interface < interfaces {
        SendState::Claiming { config, configurations, interface, interfaces }
    } else if config < configurations {
        first_config(config + 1, configurations)
    } else {
        SendState::Writing
    }
}

/// The state after the answers `replies`, taken one after the other.
pub open spec fn run(state: SendState, replies: Seq<UsbReply>, payload_len: nat) -> SendState
    decreases replies.len(),
{
    if replies.len() == 0 {
        state
    } else {
        run(state.next(replies[0], payload_len), replies.skip(1), payload_len)
    }
}

/// `count` interfaces claimed, one after the other.
pub open spec fn claimed(count: nat) -> Seq<UsbReply> {
    Seq::new(count, |i: int| UsbReply::Done)
}

/// The answers of a configuration with `interfaces` interfaces, where nothing
/// fails: its descriptor, then each interface claimed.
pub open spec fn config_replies(interfaces: u8) -> Seq<UsbReply> {
    seq![UsbReply::Count(interfaces)] + claimed(interfaces as nat)
}

/// The answers of the configurations of a device, where nothing fails;
/// `counts` holds the number of interfaces of each.
pub open spec fn device_replies(counts: Seq<u8>) -> Seq<UsbReply>
    decreases counts.len(),
{
    if counts.len() == 0 {
        Seq::empty()
    } else {
        device_replies(counts.drop_last()) + config_replies(counts.last())
    }
}

/// The answers up to the device descriptor of a device with `configurations`
/// configurations, where nothing fails.
pub open spec fn opening_replies(configurations: u8) -> Seq<UsbReply> {
    seq![UsbReply::Done, UsbReply::Done, UsbReply::Count(configurations)]
}

/// Taking answers in two runs is taking them in one.
pub proof fn lemma_run_concat(
    state: SendState,
    first: Seq<UsbReply>,
    second: Seq<UsbReply>,
    payload_len: nat,
)
    ensures
        run(state, first + second, payload_len) == run(
            run(state, first, payload_len),
            second,
            payload_len,
        ),
    decreases first.len(),
{
    if first.len() == 0 {
        assert(first + second =~= second);
    } else {
        assert((first + second).skip(1) =~= first.skip(1) + second);
        lemma_run_concat(state.next(first[0], payload_len), first.skip(1), second, payload_len);
    }
}

/// A transmission never turns to a configuration or an interface that the
/// device does not have: whatever the answers, it reads the descriptors of
/// configurations and claims interfaces below the numbers that it was told.
pub proof fn lemma_run_in_bounds(state: SendState, replies: Seq<UsbReply>, payload_len: nat)
    requires
        state.in_bounds(),
    ensures
        run(state, replies, payload_len).in_bounds(),
    decreases replies.len(),
{
    if replies.len() > 0 {
        lemma_run_in_bounds(state.next(replies[0], payload_len), replies.skip(1), payload_len);
    }
}

/// A transmission that has ended takes no notice of further answers.
pub proof fn lemma_run_ended(state: SendState, replies: Seq<UsbReply>, payload_len: nat)
    requires
        state.spec_outcome() is Some,
    ensures
        run(state, replies, payload_len) == state,
    decreases replies.len(),
{
    if replies.len() > 0 {
        lemma_run_ended(state, replies.skip(1), payload_len);
    }
}

/// A failure of the awaited operation ends the transmission with the
/// transport error of that operation.
pub proof fn lemma_failure_ends(state: SendState, payload_len: nat)
    ensures
        state.spec_awaits() matches Some(operation) ==> state.next(UsbReply::Failed, payload_len)
            == SendState::Failed(KeyboardError::Transport(operation)),
{
}

/// After `count` more interfaces of a configuration were claimed, the next
/// one is turned to.
pub proof fn lemma_run_claimed(
    config: u8,
    configurations: u8,
    interface: nat,
    interfaces: u8,
    count: nat,
    payload_len: nat,
)
    requires
        interface + count <= interfaces,
    ensures
        run(
            enter_interface(config, configurations, interface as int, interfaces),
            claimed(count),
            payload_len,
        ) == enter_interface(config, configurations, (interface + count) as int, interfaces),
    decreases count,
{
    if count > 0 {
        assert(claimed(count).skip(1) =~= claimed((count - 1) as nat));
        lemma_run_claimed(
            config,
            configurations,
            interface + 1,
            interfaces,
            (count - 1) as nat,
            payload_len,
        );
    }
}

/// While a configuration answers without failure, its interfaces are claimed
/// in rising order: after its descriptor and `interface` claims, interface
/// `interface` is the one to claim, and after the last of them the next
/// configuration is turned to.
pub proof fn lemma_run_config(
    config: u8,
    configurations: u8,
    interfaces: u8,
    interface: nat,
    payload_len: nat,
)
    requires
        config < configurations,
        interface <= interfaces,
    ensures
        run(
            enter_config(config as int, configurations),
            config_replies(interfaces).take(1 + interface as int),
            payload_len,
        ) == enter_interface(config, configurations, interface as int, interfaces),
        run(enter_config(config as int, configurations), config_replies(interfaces), payload_len)
            == enter_config(config + 1, configurations),
{
    let start = enter_config(config as int, configurations);
    let head = seq![UsbReply::Count(interfaces)];
    assert(config_replies(interfaces).take(1 + interface as int) =~= head + claimed(interface));
    assert(head.skip(1) =~= Seq::<UsbReply>::empty());
    assert(run(start, head, payload_len) == enter_interface(config, configurations, 0, interfaces))
        by {
        reveal_with_fuel(run, 2);
    }
    lemma_run_concat(start, head, claimed(interface), payload_len);
    lemma_run_claimed(config, configurations, 0, interfaces, interface, payload_len);
    lemma_run_concat(start, head, claimed(interfaces as nat), payload_len);
    lemma_run_claimed(config, configurations, 0, interfaces, interfaces as nat, payload_len);
}

/// While nothing fails, the configurations are gone through in rising order:
/// after the answers of the first `config` of them, configuration `config` is
/// turned to.
pub proof fn lemma_run_device(counts: Seq<u8>, config: nat, payload_len: nat)
    requires
        counts.len() <= u8::MAX,
        config <= counts.len(),
    ensures
        run(
            enter_config(0, counts.len() as u8),
            device_replies(counts.take(config as int)),
            payload_len,
        ) == enter_config(config as int, counts.len() as u8),
    decreases config,
{
    let configurations = counts.len() as u8;
    let done = counts.take(config as int);
    if config > 0 {
        let before = (config - 1) as nat;
        assert(done.drop_last() =~= counts.take(before as int));
        assert(done.last() == counts[before as int]);
        lemma_run_device(counts, before, payload_len);
        lemma_run_concat(
            enter_config(0, configurations),
            device_replies(counts.take(before as int)),
            config_replies(counts[before as int]),
            payload_len,
        );
        lemma_run_config(before as u8, configurations, counts[before as int], 0, payload_len);
    }
}

/// Once the device is open, detachment is set and the device descriptor is
/// read, the first configuration is turned to.
pub proof fn lemma_run_opening(configurations: u8, payload_len: nat)
    ensures
        run(SendState::Opening, opening_replies(configurations), payload_len) == enter_config(
            0,
            configurations,
        ),
{
    let replies = opening_replies(configurations);
    assert(replies.skip(1).skip(1).skip(1) =~= Seq::<UsbReply>::empty());
    reveal_with_fuel(run, 4);
}

/// The order of the claims: on a device whose configurations have `counts`
/// interfaces, and while nothing fails, interface `interface` of
/// configuration `config` is the one to claim after the answers of the
/// configurations before `config`, the descriptor of `config` and the claims
/// of its interfaces before `interface`.
pub proof fn lemma_claim_order(counts: Seq<u8>, config: nat, interface: nat, payload_len: nat)
    requires
        counts.len() <= u8::MAX,
        config < counts.len(),
        interface < counts[config as int],
    ensures
        run(
            SendState::Opening,
            opening_replies(counts.len() as u8) + device_replies(counts.take(config as int))
                + config_replies(counts[config as int]).take(1 + interface as int),
            payload_len,
        ) == (SendState::Claiming {
            config: config as u8,
            configurations: counts.len() as u8,
            interface: interface as u8,
            interfaces: counts[config as int],
        }),
{
    let configurations = counts.len() as u8;
    let opening = opening_replies(configurations);
    let before = device_replies(counts.take(config as int));
    let here = config_replies(counts[config as int]).take(1 + interface as int);
    lemma_run_opening(configurations, payload_len);
    lemma_run_concat(SendState::Opening, opening + before, here, payload_len);
    lemma_run_concat(SendState::Opening, opening, before, payload_len);
    lemma_run_device(counts, config, payload_len);
    lemma_run_config(config as u8, configurations, counts[config as int], interface, payload_len);
}

/// A transmission in which nothing fails claims every interface of every
/// configuration, writes the control transfer once, and succeeds where the
/// whole payload was written; it is a short write where less was written.
pub proof fn lemma_healthy_run(counts: Seq<u8>, written: usize, payload_len: nat)
    requires
        counts.len() <= u8::MAX,
    ensures
        run(
            SendState::Opening,
            opening_replies(counts.len() as u8) + device_replies(counts),
            payload_len,
        ) == SendState::Writing,
        run(
            SendState::Opening,
            opening_replies(counts.len() as u8) + device_replies(counts) + seq![
                UsbReply::Written(written),
            ],
            payload_len,
        ) == if written >= payload_len {
            SendState::Sent
        } else {
            SendState::Failed(KeyboardError::ShortWrite)
        },
{
    let configurations = counts.len() as u8;
    let opening = opening_replies(configurations);
    let claims = device_replies(counts);
    let last = seq![UsbReply::Written(written)];
    assert(counts.take(counts.len() as int) =~= counts);
    lemma_run_opening(configurations, payload_len);
    lemma_run_concat(SendState::Opening, opening, claims, payload_len);
    lemma_run_device(counts, counts.len(), payload_len);
    lemma_run_concat(SendState::Opening, opening + claims, last, payload_len);
    assert(last.skip(1) =~= Seq::<UsbReply>::empty());
    assert(run(SendState::Writing, last, payload_len) == SendState::Writing.next(
        last[0],
        payload_len,
    )) by {
        reveal_with_fuel(run, 2);
    }
}

} // verus!
