//! The finite budgets and deadlines of one connection.
use vstd::prelude::*;

use crate::error::BuildError;

verus! {

/// The default of [`ResourcePolicy::max_outbound_messages`].
pub const DEFAULT_OUTBOUND_WARNING_THRESHOLD: usize = 1024;

/// The finite budgets and deadlines of one connection.
#[derive(Debug, Clone, Copy, PartialEq, Eq, Structural)]
pub struct ResourcePolicy {
    /// How many inbound requests may be in flight.
    pub max_inbound_requests: usize,
    /// How many messages may wait for the writer.
    pub max_outbound_messages: usize,
    /// How many encoded bytes may wait for the writer.
    pub max_outbound_bytes: usize,
    /// How many documents may be open.
    pub max_documents: usize,
    /// How many bytes the texts of all open documents may take.
    pub max_document_bytes: usize,
    /// How long a handler may run, in nanoseconds.
    pub handler_timeout: u128,
    /// How long an outbound request waits for its answer, in nanoseconds;
    /// `None` waits without a deadline.
    pub outbound_request_timeout: Option<u128>,
}

/// A field of [`ResourcePolicy`].
#[derive(Debug, Clone, Copy, PartialEq, Eq, Structural)]
pub enum ResourcePolicyField {
    MaxInboundRequests,
    MaxOutboundMessages,
    MaxOutboundBytes,
    MaxDocuments,
    MaxDocumentBytes,
    HandlerTimeout,
    OutboundRequestTimeout,
}

impl ResourcePolicyField {
    /// The field's name.
    pub fn as_str(&self) -> (name: &'static str)
        ensures
            name@ == self.name(),
    {
        match self {
            ResourcePolicyField::MaxInboundRequests => "max_inbound_requests",
            ResourcePolicyField::MaxOutboundMessages => "max_outbound_messages",
            ResourcePolicyField::MaxOutboundBytes => "max_outbound_bytes",
            ResourcePolicyField::MaxDocuments => "max_documents",
            ResourcePolicyField::MaxDocumentBytes => "max_document_bytes",
            ResourcePolicyField::HandlerTimeout => "handler_timeout",
            ResourcePolicyField::OutboundRequestTimeout => "outbound_request_timeout",
        }
    }

    /// The characters of the field's name.
    pub open spec fn name(self) -> Seq<char> {
        match self {
            ResourcePolicyField::MaxInboundRequests => "max_inbound_requests"@,
            ResourcePolicyField::MaxOutboundMessages => "max_outbound_messages"@,
            ResourcePolicyField::MaxOutboundBytes => "max_outbound_bytes"@,
            ResourcePolicyField::MaxDocuments => "max_documents"@,
            ResourcePolicyField::MaxDocumentBytes => "max_document_bytes"@,
            ResourcePolicyField::HandlerTimeout => "handler_timeout"@,
            ResourcePolicyField::OutboundRequestTimeout => "outbound_request_timeout"@,
        }
    }
}

impl Default for ResourcePolicy {
    fn default() -> (policy: Self)
        ensures
            policy.invalid_field() is None,
            policy.max_outbound_messages == DEFAULT_OUTBOUND_WARNING_THRESHOLD,
            policy == ResourcePolicy::standard(),
    {
        ResourcePolicy {
            max_inbound_requests: 64,
            max_outbound_messages: DEFAULT_OUTBOUND_WARNING_THRESHOLD,
            max_outbound_bytes: 0x400_0000,
            max_documents: 4096,
            max_document_bytes: 0x1000_0000,
            handler_timeout: 60_000_000_000,
            outbound_request_timeout: Some(30_000_000_000),
        }
    }
}

impl ResourcePolicy {
    /// The default budgets and deadlines.
    pub open spec fn standard() -> ResourcePolicy {
        ResourcePolicy {
            max_inbound_requests: 64,
            max_outbound_messages: DEFAULT_OUTBOUND_WARNING_THRESHOLD,
            max_outbound_bytes: 0x400_0000,
            max_documents: 4096,
            max_document_bytes: 0x1000_0000,
            handler_timeout: 60_000_000_000,
            outbound_request_timeout: Some(30_000_000_000),
        }
    }

    /// The first budget, or enabled deadline, that is zero.
    pub open spec fn invalid_field(self) -> Option<ResourcePolicyField> {
        if self.max_inbound_requests == 0 {
            Some(ResourcePolicyField::MaxInboundRequests)
        } else if self.max_outbound_messages == 0 {
            Some(ResourcePolicyField::MaxOutboundMessages)
        } else if self.max_outbound_bytes == 0 {
            Some(ResourcePolicyField::MaxOutboundBytes)
        } else if self.max_documents == 0 {
            Some(ResourcePolicyField::MaxDocuments)
        } else if self.max_document_bytes == 0 {
            Some(ResourcePolicyField::MaxDocumentBytes)
        } else if self.handler_timeout == 0 {
            Some(ResourcePolicyField::HandlerTimeout)
        } else if self.outbound_request_timeout == Some(0u128) {
            Some(ResourcePolicyField::OutboundRequestTimeout)
        } else {
            None
        }
    }

    /// Reject a zero budget and an enabled zero deadline.
    pub fn validate(&self) -> (result: Result<(), BuildError>)
        ensures
            match self.invalid_field() {
                Some(invalid) => result matches Err(BuildError::InvalidResourcePolicy { field })
                    && field == invalid,
                None => result is Ok,
            },
    {
        let no_deadline = match self.outbound_request_timeout {
            Some(deadline) => deadline == 0,
            None => false,
        };
        let field = if self.max_inbound_requests == 0 {
            ResourcePolicyField::MaxInboundRequests
        } else if self.max_outbound_messages == 0 {
            ResourcePolicyField::MaxOutboundMessages
        } else if self.max_outbound_bytes == 0 {
            ResourcePolicyField::MaxOutboundBytes
        } else if self.max_documents == 0 {
            ResourcePolicyField::MaxDocuments
        } else if self.max_document_bytes == 0 {
            ResourcePolicyField::MaxDocumentBytes
        } else if self.handler_timeout == 0 {
            ResourcePolicyField::HandlerTimeout
        } else if no_deadline {
            ResourcePolicyField::OutboundRequestTimeout
        } else {
            return Ok(());
        };
        Err(BuildError::InvalidResourcePolicy { field })
    }
}

} // verus!
