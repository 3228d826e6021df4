//! Media negotiation: what each step needs from the session state, what it
//! records there, and how a missing piece is reported.
use vstd::prelude::*;

use crate::session::state::{clock_kept, SessionState, SessionView};

verus! {

/// The AI waits this long (30 s) for the user's audio producer to appear.
pub const REMOTE_PRODUCER_TIMEOUT_NS: u64 = 30_000_000_000;

/// Why a negotiation step could not go on.
#[derive(Debug, Clone, Copy, PartialEq, Eq, Structural)]
pub enum NegotiationFailure {
    NoParticipantId,
    NoRouterRtpCapabilities,
    NoDeviceRtpCapabilitiesReturned,
    NoTransportId,
    NoIceParameters,
    NoDtlsParameters,
    RemoteProducerTimeout,
    NoRecvTransportId,
    NoRemoteProducerId,
    NoDeviceRtpCapabilities,
    NoConsumerInfo,
    NoRtpParameters,
    NoRouterConsumerId,
    NoDeviceConsumerId,
    NoSendTransportId,
    NoDeviceProducerId,
}

pub open spec fn failure_message(f: NegotiationFailure) -> Seq<char> {
    match f {
        NegotiationFailure::NoParticipantId => "No participant_id available"@,
        NegotiationFailure::NoRouterRtpCapabilities => "No router RTP capabilities available"@,
        NegotiationFailure::NoDeviceRtpCapabilitiesReturned => "No device RTP capabilities returned"@,
        NegotiationFailure::NoTransportId => "No transport ID in response"@,
        NegotiationFailure::NoIceParameters => "No ICE parameters in response"@,
        NegotiationFailure::NoDtlsParameters => "No DTLS parameters in response"@,
        NegotiationFailure::RemoteProducerTimeout => "Timeout waiting for remote producer"@,
        NegotiationFailure::NoRecvTransportId => "No recv transport ID available"@,
        NegotiationFailure::NoRemoteProducerId => "No remote producer ID available"@,
        NegotiationFailure::NoDeviceRtpCapabilities => "No device RTP capabilities available"@,
        NegotiationFailure::NoConsumerInfo => "No consumer info in response"@,
        NegotiationFailure::NoRtpParameters => "No RTP parameters in consumer info"@,
        NegotiationFailure::NoRouterConsumerId => "No router consumer ID available"@,
        NegotiationFailure::NoDeviceConsumerId => "No device consumer ID available"@,
        NegotiationFailure::NoSendTransportId => "No send transport ID available"@,
        NegotiationFailure::NoDeviceProducerId => "No device_producer_id returned from start_production"@,
    }
}

impl NegotiationFailure {
    /// The reported message.
    pub fn message(&self) -> (r: &'static str)
        ensures
            r@ == failure_message(*self),
    {
        match self {
            NegotiationFailure::NoParticipantId => "No participant_id available",
            NegotiationFailure::NoRouterRtpCapabilities => "No router RTP capabilities available",
            NegotiationFailure::NoDeviceRtpCapabilitiesReturned => "No device RTP capabilities returned",
            NegotiationFailure::NoTransportId => "No transport ID in response",
            NegotiationFailure::NoIceParameters => "No ICE parameters in response",
            NegotiationFailure::NoDtlsParameters => "No DTLS parameters in response",
            NegotiationFailure::RemoteProducerTimeout => "Timeout waiting for remote producer",
            NegotiationFailure::NoRecvTransportId => "No recv transport ID available",
            NegotiationFailure::NoRemoteProducerId => "No remote producer ID available",
            NegotiationFailure::NoDeviceRtpCapabilities => "No device RTP capabilities available",
            NegotiationFailure::NoConsumerInfo => "No consumer info in response",
            NegotiationFailure::NoRtpParameters => "No RTP parameters in consumer info",
            NegotiationFailure::NoRouterConsumerId => "No router consumer ID available",
            NegotiationFailure::NoDeviceConsumerId => "No device consumer ID available",
            NegotiationFailure::NoSendTransportId => "No send transport ID available",
            NegotiationFailure::NoDeviceProducerId => "No device_producer_id returned from start_production",
        }
    }
}

/// The session and participant every negotiation message names.
pub struct Participant {
    pub session_id: String,
    pub participant_id: String,
}

/// A present value, or the given failure.
pub fn require_present<T>(value: Option<T>, failure: NegotiationFailure) -> (r: Result<T, NegotiationFailure>)
    ensures
        match value {
            Some(v) => r matches Ok(x) && x == v,
            None => r == Err::<T, NegotiationFailure>(failure),
        },
{
    match value {
        Some(v) => Ok(v),
        None => Err(failure),
    }
}

/// A transport created by the signalling server must come with its id, ICE
/// parameters and DTLS parameters, checked in that order.
pub fn check_transport_response(has_transport_id: bool, has_ice: bool, has_dtls: bool) -> (r: Result<(), NegotiationFailure>)
    ensures
        r == (if !has_transport_id {
            Err(NegotiationFailure::NoTransportId)
        } else if !has_ice {
            Err(NegotiationFailure::NoIceParameters)
        } else if !has_dtls {
            Err(NegotiationFailure::NoDtlsParameters)
        } else {
            Ok(())
        }),
{
    if !has_transport_id {
        return Err(NegotiationFailure::NoTransportId);
    }
    if !has_ice {
        return Err(NegotiationFailure::NoIceParameters);
    }
    if !has_dtls {
        return Err(NegotiationFailure::NoDtlsParameters);
    }
    Ok(())
}

/// Whether the wait for the user's producer has run past its limit.
pub fn remote_producer_wait_expired(elapsed_ns: u64) -> (r: bool)
    ensures
        r == (elapsed_ns > REMOTE_PRODUCER_TIMEOUT_NS),
{
    elapsed_ns > REMOTE_PRODUCER_TIMEOUT_NS
}

/// Inputs of the consumer-creation step.
pub struct ConsumerInputs {
    pub participant: Participant,
    pub recv_transport_id: String,
    pub router_producer_id: String,
}

/// Inputs of the consumer-resume step.
pub struct ResumeInputs {
    pub participant: Participant,
    pub router_consumer_id: String,
    pub device_consumer_id: String,
}

/// Inputs of the production step.
pub struct ProductionInputs {
    pub participant: Participant,
    pub send_transport_id: String,
}

impl SessionState {
    /// The session and participant ids; negotiation needs an assigned participant.
    pub fn negotiation_participant(&self) -> (r: Result<Participant, NegotiationFailure>)
        ensures
            match self@.participant_id {
                Some(p) => r matches Ok(x) && x.session_id@ == self@.session_id && x.participant_id@ == p,
                None => r == Err::<Participant, NegotiationFailure>(NegotiationFailure::NoParticipantId),
            },
    {
        match &self.participant_id {
            Some(p) => Ok(Participant { session_id: self.session_id.clone(), participant_id: p.clone() }),
            None => Err(NegotiationFailure::NoParticipantId),
        }
    }

    /// The user's producer is known and its id recorded.
    pub fn remote_producer_ready(&self) -> (r: bool)
        ensures
            r == (self@.has_remote_producer && self@.router_producer_id is Some),
    {
        self.has_remote_producer && self.router_producer_id.is_some()
    }

    /// What consumer creation needs, checked in order: participant, receive
    /// transport, user's producer, device RTP capabilities.
    pub fn consumer_inputs(&self, has_device_rtp_capabilities: bool) -> (r: Result<ConsumerInputs, NegotiationFailure>)
        ensures
            match r {
                Ok(x) => self@.participant_id == Some(x.participant.participant_id@)
                    && x.participant.session_id@ == self@.session_id
                    && self@.recv_transport_id == Some(x.recv_transport_id@)
                    && self@.router_producer_id == Some(x.router_producer_id@)
                    && has_device_rtp_capabilities,
                Err(f) => f == (if self@.participant_id is None {
                    NegotiationFailure::NoParticipantId
                } else if self@.recv_transport_id is None {
                    NegotiationFailure::NoRecvTransportId
                } else if self@.router_producer_id is None {
                    NegotiationFailure::NoRemoteProducerId
                } else {
                    NegotiationFailure::NoDeviceRtpCapabilities
                }) && !(self@.participant_id is Some && self@.recv_transport_id is Some
                    && self@.router_producer_id is Some && has_device_rtp_capabilities),
            },
    {
        let participant = self.negotiation_participant()?;
        let recv_transport_id = match &self.recv_transport_id {
            Some(t) => t.clone(),
            None => return Err(NegotiationFailure::NoRecvTransportId),
        };
        let router_producer_id = match &self.router_producer_id {
            Some(p) => p.clone(),
            None => return Err(NegotiationFailure::NoRemoteProducerId),
        };
        if !has_device_rtp_capabilities {
            return Err(NegotiationFailure::NoDeviceRtpCapabilities);
        }
        Ok(ConsumerInputs { participant, recv_transport_id, router_producer_id })
    }

    /// What resuming the consumer needs, checked in order: participant,
    /// router consumer, device consumer.
    pub fn resume_inputs(&self) -> (r: Result<ResumeInputs, NegotiationFailure>)
        ensures
            match r {
                Ok(x) => self@.participant_id == Some(x.participant.participant_id@)
                    && x.participant.session_id@ == self@.session_id
                    && self@.router_consumer_id == Some(x.router_consumer_id@)
                    && self@.device_consumer_id == Some(x.device_consumer_id@),
                Err(f) => f == (if self@.participant_id is None {
                    NegotiationFailure::NoParticipantId
                } else if self@.router_consumer_id is None {
                    NegotiationFailure::NoRouterConsumerId
                } else {
                    NegotiationFailure::NoDeviceConsumerId
                }) && !(self@.participant_id is Some && self@.router_consumer_id is Some
                    && self@.device_consumer_id is Some),
            },
    {
        let participant = self.negotiation_participant()?;
        let router_consumer_id = match &self.router_consumer_id {
            Some(c) => c.clone(),
            None => return Err(NegotiationFailure::NoRouterConsumerId),
        };
        let device_consumer_id = match &self.device_consumer_id {
            Some(c) => c.clone(),
            None => return Err(NegotiationFailure::NoDeviceConsumerId),
        };
        Ok(ResumeInputs { participant, router_consumer_id, device_consumer_id })
    }

    /// What starting production needs, checked in order: participant, send transport.
    pub fn production_inputs(&self) -> (r: Result<ProductionInputs, NegotiationFailure>)
        ensures
            match r {
                Ok(x) => self@.participant_id == Some(x.participant.participant_id@)
                    && x.participant.session_id@ == self@.session_id
                    && self@.send_transport_id == Some(x.send_transport_id@),
                Err(f) => f == (if self@.participant_id is None {
                    NegotiationFailure::NoParticipantId
                } else {
                    NegotiationFailure::NoSendTransportId
                }) && !(self@.participant_id is Some && self@.send_transport_id is Some),
            },
    {
        let participant = self.negotiation_participant()?;
        let send_transport_id = match &self.send_transport_id {
            Some(t) => t.clone(),
            None => return Err(NegotiationFailure::NoSendTransportId),
        };
        Ok(ProductionInputs { participant, send_transport_id })
    }

    /// Records the transport the AI sends on.
    pub fn record_send_transport(&mut self, transport_id: String)
        ensures
            final(self)@ == (SessionView { send_transport_id: Some(transport_id@), ..old(self)@ }),
            clock_kept(*old(self), *final(self)),
    {
        self.send_transport_id = Some(transport_id);
    }

    /// Records the transport the AI receives on.
    pub fn record_recv_transport(&mut self, transport_id: String)
        ensures
            final(self)@ == (SessionView { recv_transport_id: Some(transport_id@), ..old(self)@ }),
            clock_kept(*old(self), *final(self)),
    {
        self.recv_transport_id = Some(transport_id);
    }

    /// Records the router's consumer of the user's audio.
    pub fn record_router_consumer(&mut self, consumer_id: String)
        ensures
            final(self)@ == (SessionView { router_consumer_id: Some(consumer_id@), ..old(self)@ }),
            clock_kept(*old(self), *final(self)),
    {
        self.router_consumer_id = Some(consumer_id);
    }

    /// Records the listening engine's consumer.
    pub fn record_device_consumer(&mut self, consumer_id: String)
        ensures
            final(self)@ == (SessionView { device_consumer_id: Some(consumer_id@), ..old(self)@ }),
            clock_kept(*old(self), *final(self)),
    {
        self.device_consumer_id = Some(consumer_id);
    }

    /// Records the user's producer announced by the signalling server.
    pub fn record_remote_producer(&mut self, producer_id: String)
        ensures
            final(self)@ == (SessionView {
                router_producer_id: Some(producer_id@),
                has_remote_producer: true,
                ..old(self)@
            }),
            clock_kept(*old(self), *final(self)),
    {
        self.router_producer_id = Some(producer_id);
        self.has_remote_producer = true;
    }

    /// Records the speaking engine's producer; an empty id is refused.
    pub fn record_device_producer(&mut self, producer_id: String) -> (r: Result<(), NegotiationFailure>)
        ensures
            producer_id@.len() == 0 ==> r == Err::<(), NegotiationFailure>(NegotiationFailure::NoDeviceProducerId)
                && final(self)@ == old(self)@,
            producer_id@.len() > 0 ==> r is Ok
                && final(self)@ == (SessionView { device_producer_id: Some(producer_id@), ..old(self)@ }),
            clock_kept(*old(self), *final(self)),
    {
        if producer_id.as_str().is_empty() {
            return Err(NegotiationFailure::NoDeviceProducerId);
        }
        self.device_producer_id = Some(producer_id);
        Ok(())
    }
}

} // verus!
