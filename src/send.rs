//! Decisions of message submission: the dispatch call, the identifier that
//! its receipt carries, and the gas payment keyed by that identifier. The
//! caller performs each action on the chain and reports what came of it.
use crate::abi::{abi_decode_word, abi_encode_address, padded_address};
use crate::types::{log_views, RawLog, RawLogView};
use vstd::prelude::*;

verus! {

/// Gas that the destination chain is paid for, per message.
pub const GAS_AMOUNT: u64 = 150000;

/// Native value sent along with the gas payment.
pub const GAS_PAYMENT_VALUE: u64 = 15000000000000000;

/// Why a submission failed.
#[derive(Clone, Copy, Debug, PartialEq, Eq)]
pub enum SubmitError {
    /// The destination address did not pad to a 32-byte word.
    EncodingError,
    /// The dispatch was not confirmed, or its receipt lacks the identifier.
    DispatchFailed,
    /// The message `id` was dispatched, but paying for its delivery failed.
    GasPaymentFailed { id: [u8; 32] },
}

/// The dispatch call: destination domain, receiver slot, message bytes.
pub struct DispatchCall {
    pub destination: u32,
    pub receiver: [u8; 32],
    pub message: Vec<u8>,
}

/// The gas payment for a dispatched message.
#[derive(Clone, Copy, Debug, PartialEq, Eq)]
pub struct GasPayment {
    pub id: [u8; 32],
    pub destination: u32,
    pub gas_amount: u64,
    pub refund: [u8; 20],
    pub value: u64,
}

/// A mined transaction's receipt: the logs it emitted, in order.
pub struct Receipt {
    pub logs: Vec<RawLog>,
}

/// Where a submission stands.
#[derive(Clone, Copy, Debug, PartialEq, Eq)]
pub enum SubmitState {
    /// The dispatch call was handed out; its outcome is awaited.
    Sent,
    /// The gas payment for message `id` was handed out; its outcome is awaited.
    GasPaid { id: [u8; 32] },
    /// Message `id` was dispatched and its delivery paid for.
    Done { id: [u8; 32] },
    /// The submission stopped with `error`.
    Failed { error: SubmitError },
}

/// What the chain reported on the last action.
pub enum SubmitEvent {
    DispatchConfirmed { receipt: Receipt },
    DispatchNotConfirmed,
    GasPaymentConfirmed,
    GasPaymentRejected,
}

/// What the caller is to do next.
pub enum SubmitAction {
    SendDispatch { call: DispatchCall },
    PayGas { payment: GasPayment },
    Report { id: [u8; 32] },
    Abort { error: SubmitError },
    Nothing,
}

/// The message identifier that a dispatch receipt carries: topic 1 of its
/// second log, the dispatch-id event.
pub open spec fn receipt_message_id(logs: Seq<RawLogView>) -> Option<Seq<u8>> {
    if logs.len() >= 2 && logs[1].topics.len() >= 2 {
        Some(logs[1].topics[1])
    } else {
        None
    }
}

/// Pads a destination address into the 32-byte receiver slot.
pub fn encode_receiver(destination: [u8; 20]) -> (r: Result<[u8; 32], SubmitError>)
    ensures
        match r {
            Ok(w) => w@ == padded_address(destination@),
            Err(_) => false,
        },
{
    let encoded = abi_encode_address(destination);
    if encoded.len() != 32 {
        return Err(SubmitError::EncodingError);
    }
    let mut w: [u8; 32] = [0u8; 32];
    let mut i: usize = 0;
    while i < 32
        invariant
            0 <= i <= 32,
            encoded@.len() == 32,
            forall|k: int| 0 <= k < i ==> w@[k] == encoded@[k],
        decreases 32 - i,
    {
        w[i] = encoded[i];
        i = i + 1;
    }
    assert(w@ =~= encoded@);
    Ok(w)
}

/// The message identifier of a dispatch receipt, or `DispatchFailed` where
/// the receipt does not carry one.
pub fn message_id_from_receipt(receipt: &Receipt) -> (r: Result<[u8; 32], SubmitError>)
    ensures
        match receipt_message_id(log_views(receipt.logs@)) {
            Some(id) => r matches Ok(w) && w@ == id,
            None => r == Err::<[u8; 32], SubmitError>(SubmitError::DispatchFailed),
        },
{
    if receipt.logs.len() < 2 {
        return Err(SubmitError::DispatchFailed);
    }
    let log = &receipt.logs[1];
    assert(log_views(receipt.logs@)[1] == log@);
    if log.topics.len() < 2 {
        return Err(SubmitError::DispatchFailed);
    }
    match abi_decode_word(log.topics[1]) {
        Ok(w) => Ok(w),
        Err(_) => Err(SubmitError::DispatchFailed),
    }
}

/// A message submission from an account, as a state machine.
pub struct Sender {
    pub domain_id: u32,
    pub refund: [u8; 20],
    pub state: SubmitState,
}

impl Sender {
    /// Starts a submission of `message` to `receiver` on domain `domain_id`,
    /// with `refund` as the address that unspent gas goes back to: the
    /// dispatch call is the first action.
    pub fn dispatch_message(
        domain_id: u32,
        receiver: [u8; 32],
        message: Vec<u8>,
        refund: [u8; 20],
    ) -> (r: (Sender, SubmitAction))
        ensures
            r.0.domain_id == domain_id,
            r.0.refund == refund,
            r.0.state == SubmitState::Sent,
            r.1 matches SubmitAction::SendDispatch { call } && call.destination == domain_id
                && call.receiver == receiver && call.message@ == message@,
    {
        let call = DispatchCall { destination: domain_id, receiver, message };
        (Sender { domain_id, refund, state: SubmitState::Sent }, SubmitAction::SendDispatch { call })
    }

    /// Resumes a submission whose message `id` was dispatched but whose
    /// delivery is not paid for: the gas payment is the first action.
    pub fn pay_gas_for(domain_id: u32, id: [u8; 32], refund: [u8; 20]) -> (r: (Sender, SubmitAction))
        ensures
            r.0.domain_id == domain_id,
            r.0.refund == refund,
            r.0.state == (SubmitState::GasPaid { id }),
            r.1 == (SubmitAction::PayGas {
                payment: GasPayment {
                    id,
                    destination: domain_id,
                    gas_amount: GAS_AMOUNT,
                    refund,
                    value: GAS_PAYMENT_VALUE,
                },
            }),
    {
        let payment = GasPayment {
            id,
            destination: domain_id,
            gas_amount: GAS_AMOUNT,
            refund,
            value: GAS_PAYMENT_VALUE,
        };
        (Sender { domain_id, refund, state: SubmitState::GasPaid { id } }, SubmitAction::PayGas { payment })
    }

    /// Takes in what came of the last action and gives the next one. An
    /// event that does not answer the pending action changes nothing.
    pub fn step(&mut self, event: SubmitEvent) -> (r: SubmitAction)
        ensures
            final(self).domain_id == old(self).domain_id,
            final(self).refund == old(self).refund,
            match (old(self).state, event) {
                (SubmitState::Sent, SubmitEvent::DispatchConfirmed { receipt }) => match receipt_message_id(
                    log_views(receipt.logs@),
                ) {
                    Some(id) => final(self).state matches SubmitState::GasPaid { id: i } && i@ == id
                        && r == (SubmitAction::PayGas {
                        payment: GasPayment {
                            id: i,
                            destination: old(self).domain_id,
                            gas_amount: GAS_AMOUNT,
                            refund: old(self).refund,
                            value: GAS_PAYMENT_VALUE,
                        },
                    }),
                    None => final(self).state == (SubmitState::Failed {
                        error: SubmitError::DispatchFailed,
                    }) && r == (SubmitAction::Abort { error: SubmitError::DispatchFailed }),
                },
                (SubmitState::Sent, SubmitEvent::DispatchNotConfirmed) => final(self).state == (
                SubmitState::Failed { error: SubmitError::DispatchFailed }) && r == (
                SubmitAction::Abort { error: SubmitError::DispatchFailed }),
                (SubmitState::GasPaid { id }, SubmitEvent::GasPaymentConfirmed) => final(self).state
                    == (SubmitState::Done { id }) && r == (SubmitAction::Report { id }),
                (SubmitState::GasPaid { id }, SubmitEvent::GasPaymentRejected) => final(self).state
                    == (SubmitState::Failed { error: SubmitError::GasPaymentFailed { id } }) && r == (
                SubmitAction::Abort { error: SubmitError::GasPaymentFailed { id } }),
                _ => final(self).state == old(self).state && r == SubmitAction::Nothing,
            },
    {
        match (self.state, event) {
            (SubmitState::Sent, SubmitEvent::DispatchConfirmed { receipt }) => {
                match message_id_from_receipt(&receipt) {
                    Ok(id) => {
                        self.state = SubmitState::GasPaid { id };
                        let payment = GasPayment {
                            id,
                            destination: self.domain_id,
                            gas_amount: GAS_AMOUNT,
                            refund: self.refund,
                            value: GAS_PAYMENT_VALUE,
                        };
                        SubmitAction::PayGas { payment }
                    },
                    Err(error) => {
                        self.state = SubmitState::Failed { error };
                        SubmitAction::Abort { error }
                    },
                }
            },
            (SubmitState::Sent, SubmitEvent::DispatchNotConfirmed) => {
                self.state = SubmitState::Failed { error: SubmitError::DispatchFailed };
                SubmitAction::Abort { error: SubmitError::DispatchFailed }
            },
            (SubmitState::GasPaid { id }, SubmitEvent::GasPaymentConfirmed) => {
                self.state = SubmitState::Done { id };
                SubmitAction::Report { id }
            },
            (SubmitState::GasPaid { id }, SubmitEvent::GasPaymentRejected) => {
                let error = SubmitError::GasPaymentFailed { id };
                self.state = SubmitState::Failed { error };
                SubmitAction::Abort { error }
            },
            _ => SubmitAction::Nothing,
        }
    }
}

} // verus!
