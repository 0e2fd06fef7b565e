//! Publishers, and the builders that declare one or publish one sample.
//!
//! A builder is a plain value: to make one, to configure it and to drop it
//! asks nothing of the session. Only resolving it does, and what it asks
//! comes out as a value too. [`PublisherBuilder::wait`] starts the declaration
//! of a publisher, which goes on through [`Declaration::request`] and
//! [`Declaration::reply`] until a [`Publisher`] or an error is there. The four
//! `wait` of [`PublicationBuilder`] give the one `resolve_put` that a
//! publication stands for. Whoever holds the session carries the requests out.
use crate::bytes::{Encoding, ZBytes};
use crate::declaration::{Declaration, PendingPublisher};
use crate::key_expr::KeyExpr;
use crate::qos::{CongestionControl, Priority, Reliability};
use crate::sample::{Locality, SampleKind, SourceInfo};
use crate::zslice::ZSlice;
use vstd::prelude::*;
use vstd::string::StringExecFns;

verus! {

/// A timestamp of the `uhlc` crate: a time and the identifier of the clock
/// that gave it. It is carried along; nothing here looks inside.
#[verifier::external_type_specification]
#[verifier::external_body]
pub struct ExTimestamp(uhlc::Timestamp);

/// Why a text is no key expression. A builder keeps it until it is resolved.
#[derive(Debug, PartialEq, Eq)]
pub struct KeyExprError {
    pub message: String,
}

impl Clone for KeyExprError {
    fn clone(&self) -> (r: Self)
        ensures
            r == *self,
    {
        KeyExprError { message: self.message.clone() }
    }
}

/// A publisher that a session has declared.
pub struct Publisher<'a> {
    /// The session that declared the publisher.
    pub session_id: u16,
    /// The number that the session gave the publisher.
    pub id: u32,
    pub key_expr: KeyExpr<'a>,
    pub encoding: Encoding,
    pub congestion_control: CongestionControl,
    pub priority: Priority,
    pub is_express: bool,
    pub destination: Locality,
    pub reliability: Reliability,
    /// Whether the session is to forget the publisher when this handle goes.
    pub undeclare_on_drop: bool,
}

/// What a put or a delete on a session asks for: a publisher to be, not yet
/// declared.
pub type SessionPutBuilder<'b> = PublicationBuilder<PublisherBuilder<'b>, PublicationBuilderPut>;

pub type SessionDeleteBuilder<'b> = PublicationBuilder<PublisherBuilder<'b>, PublicationBuilderDelete>;

pub type PublisherPutBuilder<'a> = PublicationBuilder<&'a Publisher<'a>, PublicationBuilderPut>;

pub type PublisherDeleteBuilder<'a> = PublicationBuilder<&'a Publisher<'a>, PublicationBuilderDelete>;

/// What a publication that puts a value brings along.
pub struct PublicationBuilderPut {
    pub payload: ZBytes,
    pub encoding: Encoding,
}

impl Clone for PublicationBuilderPut {
    /// The same payload over the same buffers, with the same encoding.
    fn clone(&self) -> (r: Self)
        ensures
            r.payload.slices() == self.payload.slices(),
            r.encoding == self.encoding,
    {
        PublicationBuilderPut { payload: self.payload.clone(), encoding: self.encoding.clone() }
    }
}

/// What a publication that deletes brings along: nothing.
pub struct PublicationBuilderDelete;

impl Clone for PublicationBuilderDelete {
    fn clone(&self) -> (r: Self)
        ensures
            r == *self,
    {
        PublicationBuilderDelete
    }
}

/// One publication that is still to be made: on `publisher`, which is a
/// [`PublisherBuilder`] or a declared [`Publisher`], of the kind `kind`.
#[must_use]
pub struct PublicationBuilder<P, T> {
    pub publisher: P,
    pub kind: T,
    pub timestamp: Option<uhlc::Timestamp>,
    pub source_info: SourceInfo,
    pub attachment: Option<ZBytes>,
}

impl<P: Clone, T: Clone> Clone for PublicationBuilder<P, T> {
    /// A builder of the same publication: clones of the publisher and of the
    /// kind, and beside them what this one holds.
    fn clone(&self) -> (r: Self)
        ensures
            cloned(self.publisher, r.publisher),
            cloned(self.kind, r.kind),
            r.timestamp == self.timestamp,
            r.source_info == self.source_info,
            match self.attachment {
                Some(attachment) => r.attachment matches Some(a) && a.slices() == attachment.slices(),
                None => r.attachment is None,
            },
    {
        PublicationBuilder {
            publisher: self.publisher.clone(),
            kind: self.kind.clone(),
            timestamp: self.timestamp,
            source_info: self.source_info,
            attachment: match &self.attachment {
                Some(attachment) => Some(attachment.clone()),
                None => None,
            },
        }
    }
}

/// The one call of `resolve_put` that a publication stands for, with every
/// argument of the call.
pub struct ResolvePut<K> {
    pub key_expr: K,
    pub payload: ZBytes,
    pub kind: SampleKind,
    pub encoding: Encoding,
    pub congestion_control: CongestionControl,
    pub priority: Priority,
    pub is_express: bool,
    pub destination: Locality,
    pub reliability: Reliability,
    pub timestamp: Option<uhlc::Timestamp>,
    pub source_info: SourceInfo,
    pub attachment: Option<ZBytes>,
}

impl<P> PublicationBuilder<P, PublicationBuilderPut> {
    /// The publication of `payload` on `publisher`, with the default encoding
    /// and nothing else set.
    pub fn put(publisher: P, payload: ZBytes) -> (r: Self)
        ensures
            r == (PublicationBuilder {
                publisher,
                kind: PublicationBuilderPut { payload, encoding: Encoding::spec_zenoh_bytes() },
                timestamp: None,
                source_info: SourceInfo { source_id: None, source_sn: None },
                attachment: None,
            }),
    {
        PublicationBuilder {
            publisher,
            kind: PublicationBuilderPut { payload, encoding: Encoding::default() },
            timestamp: None,
            source_info: SourceInfo::empty(),
            attachment: None,
        }
    }

    /// Sets the encoding of the payload.
    pub fn encoding(self, encoding: Encoding) -> (r: Self)
        ensures
            r == (PublicationBuilder {
                kind: PublicationBuilderPut { encoding, ..self.kind },
                ..self
            }),
    {
        PublicationBuilder { kind: PublicationBuilderPut { encoding, ..self.kind }, ..self }
    }
}

impl<P> PublicationBuilder<P, PublicationBuilderDelete> {
    /// The deletion on `publisher`, with nothing else set.
    pub fn delete(publisher: P) -> (r: Self)
        ensures
            r == (PublicationBuilder {
                publisher,
                kind: PublicationBuilderDelete,
                timestamp: None,
                source_info: SourceInfo { source_id: None, source_sn: None },
                attachment: None,
            }),
    {
        PublicationBuilder {
            publisher,
            kind: PublicationBuilderDelete,
            timestamp: None,
            source_info: SourceInfo::empty(),
            attachment: None,
        }
    }
}

impl<P, T> PublicationBuilder<P, T> {
    /// Sets where the sample first came from.
    pub fn source_info(self, source_info: SourceInfo) -> (r: Self)
        ensures
            r == (PublicationBuilder { source_info, ..self }),
    {
        PublicationBuilder { source_info, ..self }
    }

    /// Sets or takes away what goes with the sample besides its payload.
    pub fn attachment(self, attachment: Option<ZBytes>) -> (r: Self)
        ensures
            r == (PublicationBuilder { attachment, ..self }),
    {
        PublicationBuilder { attachment, ..self }
    }

    /// Sets or takes away the timestamp of the sample.
    pub fn timestamp(self, timestamp: Option<uhlc::Timestamp>) -> (r: Self)
        ensures
            r == (PublicationBuilder { timestamp, ..self }),
    {
        PublicationBuilder { timestamp, ..self }
    }
}

impl<'b, T> PublicationBuilder<PublisherBuilder<'b>, T> {
    /// Sets what the network does with the sample where a queue is full.
    pub fn congestion_control(self, congestion_control: CongestionControl) -> (r: Self)
        ensures
            r == (PublicationBuilder {
                publisher: PublisherBuilder { congestion_control, ..self.publisher },
                ..self
            }),
    {
        PublicationBuilder { publisher: self.publisher.congestion_control(congestion_control), ..self }
    }

    /// Sets the priority of the sample.
    pub fn priority(self, priority: Priority) -> (r: Self)
        ensures
            r == (PublicationBuilder { publisher: PublisherBuilder { priority, ..self.publisher }, ..self }),
    {
        PublicationBuilder { publisher: self.publisher.priority(priority), ..self }
    }

    /// Sets whether the sample goes out at once, outside any batch.
    pub fn express(self, is_express: bool) -> (r: Self)
        ensures
            r == (PublicationBuilder { publisher: PublisherBuilder { is_express, ..self.publisher }, ..self }),
    {
        PublicationBuilder { publisher: self.publisher.express(is_express), ..self }
    }

    /// Sets which subscribers the sample may reach.
    pub fn allowed_destination(self, destination: Locality) -> (r: Self)
        ensures
            r == (PublicationBuilder { publisher: PublisherBuilder { destination, ..self.publisher }, ..self }),
    {
        PublicationBuilder { publisher: self.publisher.allowed_destination(destination), ..self }
    }

    /// Sets which kind of link the sample would rather take.
    pub fn reliability(self, reliability: Reliability) -> (r: Self)
        ensures
            r == (PublicationBuilder { publisher: PublisherBuilder { reliability, ..self.publisher }, ..self }),
    {
        PublicationBuilder { publisher: self.publisher.reliability(reliability), ..self }
    }
}

impl<'b> PublicationBuilder<PublisherBuilder<'b>, PublicationBuilderPut> {
    /// Resolves a put on a session: the one `resolve_put` to make, with the
    /// payload and the encoding of the builder and the settings of its
    /// publisher to be, or the error that the key expression was found with.
    /// No publisher is declared.
    pub fn wait(self) -> (r: Result<ResolvePut<KeyExpr<'b>>, KeyExprError>)
        ensures
            match self.publisher.key_expr {
                Ok(key_expr) => r == Ok::<ResolvePut<KeyExpr<'b>>, KeyExprError>(
                    ResolvePut {
                        key_expr,
                        payload: self.kind.payload,
                        kind: SampleKind::Put,
                        encoding: self.kind.encoding,
                        congestion_control: self.publisher.congestion_control,
                        priority: self.publisher.priority,
                        is_express: self.publisher.is_express,
                        destination: self.publisher.destination,
                        reliability: self.publisher.reliability,
                        timestamp: self.timestamp,
                        source_info: self.source_info,
                        attachment: self.attachment,
                    },
                ),
                Err(e) => r == Err::<ResolvePut<KeyExpr<'b>>, KeyExprError>(e),
            },
    {
        match self.publisher.key_expr {
            Ok(key_expr) => Ok(
                ResolvePut {
                    key_expr,
                    payload: self.kind.payload,
                    kind: SampleKind::Put,
                    encoding: self.kind.encoding,
                    congestion_control: self.publisher.congestion_control,
                    priority: self.publisher.priority,
                    is_express: self.publisher.is_express,
                    destination: self.publisher.destination,
                    reliability: self.publisher.reliability,
                    timestamp: self.timestamp,
                    source_info: self.source_info,
                    attachment: self.attachment,
                },
            ),
            Err(e) => Err(e),
        }
    }
}

impl<'b> PublicationBuilder<PublisherBuilder<'b>, PublicationBuilderDelete> {
    /// Resolves a delete on a session: the one `resolve_put` to make, of the
    /// kind `Delete`, with an empty payload, the reserved encoding and the
    /// settings of the publisher to be, or the error that the key expression
    /// was found with. No publisher is declared.
    pub fn wait(self) -> (r: Result<ResolvePut<KeyExpr<'b>>, KeyExprError>)
        ensures
            match self.publisher.key_expr {
                Ok(key_expr) => r matches Ok(put) && {
                    &&& put.key_expr == key_expr
                    &&& put.payload.slices() == Seq::<ZSlice>::empty()
                    &&& put.kind == SampleKind::Delete
                    &&& put.encoding == Encoding::spec_zenoh_bytes()
                    &&& put.congestion_control == self.publisher.congestion_control
                    &&& put.priority == self.publisher.priority
                    &&& put.is_express == self.publisher.is_express
                    &&& put.destination == self.publisher.destination
                    &&& put.reliability == self.publisher.reliability
                    &&& put.timestamp == self.timestamp
                    &&& put.source_info == self.source_info
                    &&& put.attachment == self.attachment
                },
                Err(e) => r == Err::<ResolvePut<KeyExpr<'b>>, KeyExprError>(e),
            },
    {
        match self.publisher.key_expr {
            Ok(key_expr) => Ok(
                ResolvePut {
                    key_expr,
                    payload: ZBytes::new(),
                    kind: SampleKind::Delete,
                    encoding: Encoding::zenoh_bytes(),
                    congestion_control: self.publisher.congestion_control,
                    priority: self.publisher.priority,
                    is_express: self.publisher.is_express,
                    destination: self.publisher.destination,
                    reliability: self.publisher.reliability,
                    timestamp: self.timestamp,
                    source_info: self.source_info,
                    attachment: self.attachment,
                },
            ),
            Err(e) => Err(e),
        }
    }
}

/// What is needed to declare a publisher, gathered before the session is
/// asked for anything.
#[must_use]
pub struct PublisherBuilder<'b> {
    /// The session that is to declare the publisher.
    pub session_id: u16,
    /// The key expression to publish on, or why the text given for it is none.
    pub key_expr: Result<KeyExpr<'b>, KeyExprError>,
    pub encoding: Encoding,
    pub congestion_control: CongestionControl,
    pub priority: Priority,
    pub is_express: bool,
    pub reliability: Reliability,
    pub destination: Locality,
}

impl<'b> PublisherBuilder<'b> {
    /// The message of the error that a clone holds where the builder it was
    /// cloned from holds an error with `message`: the same message under a
    /// note that it was cloned.
    pub open spec fn cloned_message(message: Seq<char>) -> Seq<char> {
        "Cloned KE Error: "@ + message
    }

    /// Whether `self` is what a clone of `source` is: the same settings and
    /// the same key expression, or an error in its place that says it was
    /// cloned.
    pub open spec fn is_clone_of(self, source: Self) -> bool {
        &&& self.session_id == source.session_id
        &&& self.encoding == source.encoding
        &&& self.congestion_control == source.congestion_control
        &&& self.priority == source.priority
        &&& self.is_express == source.is_express
        &&& self.reliability == source.reliability
        &&& self.destination == source.destination
        &&& match source.key_expr {
            Ok(key_expr) => self.key_expr == Ok::<KeyExpr<'b>, KeyExprError>(key_expr),
            Err(e) => self.key_expr matches Err(c) && c.message@ == Self::cloned_message(e.message@),
        }
    }

    /// The builder of a publisher on `key_expr` in the session `session_id`,
    /// with every setting at its default.
    pub fn new(session_id: u16, key_expr: Result<KeyExpr<'b>, KeyExprError>) -> (r: Self)
        ensures
            r == (PublisherBuilder {
                session_id,
                key_expr,
                encoding: Encoding::spec_zenoh_bytes(),
                congestion_control: CongestionControl::Drop,
                priority: Priority::Data,
                is_express: false,
                reliability: Reliability::Reliable,
                destination: Locality::Any,
            }),
    {
        PublisherBuilder {
            session_id,
            key_expr,
            encoding: Encoding::default(),
            congestion_control: CongestionControl::default(),
            priority: Priority::default(),
            is_express: false,
            reliability: Reliability::default(),
            destination: Locality::default(),
        }
    }

    /// Sets the encoding that the publisher gives its samples by default.
    pub fn encoding(self, encoding: Encoding) -> (r: Self)
        ensures
            r == (PublisherBuilder { encoding, ..self }),
    {
        PublisherBuilder { encoding, ..self }
    }

    /// Sets what the network does with the samples where a queue is full.
    pub fn congestion_control(self, congestion_control: CongestionControl) -> (r: Self)
        ensures
            r == (PublisherBuilder { congestion_control, ..self }),
    {
        PublisherBuilder { congestion_control, ..self }
    }

    /// Sets the priority of the samples.
    pub fn priority(self, priority: Priority) -> (r: Self)
        ensures
            r == (PublisherBuilder { priority, ..self }),
    {
        PublisherBuilder { priority, ..self }
    }

    /// Sets whether the samples go out at once, outside any batch.
    pub fn express(self, is_express: bool) -> (r: Self)
        ensures
            r == (PublisherBuilder { is_express, ..self }),
    {
        PublisherBuilder { is_express, ..self }
    }

    /// Sets which subscribers the samples may reach.
    pub fn allowed_destination(self, destination: Locality) -> (r: Self)
        ensures
            r == (PublisherBuilder { destination, ..self }),
    {
        let mut builder = self;
        builder.destination = destination;
        builder
    }

    /// Sets which kind of link the samples would rather take.
    pub fn reliability(self, reliability: Reliability) -> (r: Self)
        ensures
            r == (PublisherBuilder { reliability, ..self }),
    {
        PublisherBuilder { reliability, ..self }
    }
}

impl<'b> Clone for PublisherBuilder<'b> {
    /// A builder with the same settings. An error in the place of the key
    /// expression is not lost: the clone holds one too, which says that it
    /// was cloned and repeats the message.
    fn clone(&self) -> (r: Self)
        ensures
            r.is_clone_of(*self),
    {
        PublisherBuilder {
            session_id: self.session_id,
            key_expr: match &self.key_expr {
                Ok(k) => Ok(k.clone()),
                Err(e) => Err(
                    KeyExprError { message: String::from_str("Cloned KE Error: ").concat(e.message.as_str()) },
                ),
            },
            encoding: self.encoding.clone(),
            congestion_control: self.congestion_control,
            priority: self.priority,
            is_express: self.is_express,
            reliability: self.reliability,
            destination: self.destination,
        }
    }
}

impl<'a> Publisher<'a> {
    /// The publication of `payload` on this publisher, in the encoding of the
    /// publisher, with nothing else set.
    pub fn put(&self, payload: ZBytes) -> (r: PublisherPutBuilder<'_>)
        ensures
            r == (PublicationBuilder {
                publisher: self,
                kind: PublicationBuilderPut { payload, encoding: self.encoding },
                timestamp: None,
                source_info: SourceInfo { source_id: None, source_sn: None },
                attachment: None,
            }),
    {
        PublicationBuilder {
            publisher: self,
            kind: PublicationBuilderPut { payload, encoding: self.encoding.clone() },
            timestamp: None,
            source_info: SourceInfo::empty(),
            attachment: None,
        }
    }

    /// The deletion on this publisher, with nothing else set.
    pub fn delete(&self) -> (r: PublisherDeleteBuilder<'_>)
        ensures
            r == (PublicationBuilder {
                publisher: self,
                kind: PublicationBuilderDelete,
                timestamp: None,
                source_info: SourceInfo { source_id: None, source_sn: None },
                attachment: None,
            }),
    {
        PublicationBuilder::delete(self)
    }
}

impl<'a> PublicationBuilder<&'a Publisher<'a>, PublicationBuilderPut> {
    /// Resolves a put on a declared publisher: the one `resolve_put` to make,
    /// with the payload and the encoding of the builder, and the key
    /// expression and the settings of the publisher.
    pub fn wait(self) -> (r: ResolvePut<&'a KeyExpr<'a>>)
        ensures
            r == (ResolvePut {
                key_expr: &self.publisher.key_expr,
                payload: self.kind.payload,
                kind: SampleKind::Put,
                encoding: self.kind.encoding,
                congestion_control: self.publisher.congestion_control,
                priority: self.publisher.priority,
                is_express: self.publisher.is_express,
                destination: self.publisher.destination,
                reliability: self.publisher.reliability,
                timestamp: self.timestamp,
                source_info: self.source_info,
                attachment: self.attachment,
            }),
    {
        ResolvePut {
            key_expr: &self.publisher.key_expr,
            payload: self.kind.payload,
            kind: SampleKind::Put,
            encoding: self.kind.encoding,
            congestion_control: self.publisher.congestion_control,
            priority: self.publisher.priority,
            is_express: self.publisher.is_express,
            destination: self.publisher.destination,
            reliability: self.publisher.reliability,
            timestamp: self.timestamp,
            source_info: self.source_info,
            attachment: self.attachment,
        }
    }
}

impl<'a> PublicationBuilder<&'a Publisher<'a>, PublicationBuilderDelete> {
    /// Resolves a delete on a declared publisher: the one `resolve_put` to
    /// make, of the kind `Delete`, with an empty payload, the reserved
    /// encoding, and the key expression and the settings of the publisher.
    pub fn wait(self) -> (r: ResolvePut<&'a KeyExpr<'a>>)
        ensures
            r.key_expr == &self.publisher.key_expr,
            r.payload.slices() == Seq::<ZSlice>::empty(),
            r.kind == SampleKind::Delete,
            r.encoding == Encoding::spec_zenoh_bytes(),
            r.congestion_control == self.publisher.congestion_control,
            r.priority == self.publisher.priority,
            r.is_express == self.publisher.is_express,
            r.destination == self.publisher.destination,
            r.reliability == self.publisher.reliability,
            r.timestamp == self.timestamp,
            r.source_info == self.source_info,
            r.attachment == self.attachment,
    {
        ResolvePut {
            key_expr: &self.publisher.key_expr,
            payload: ZBytes::new(),
            kind: SampleKind::Delete,
            encoding: Encoding::zenoh_bytes(),
            congestion_control: self.publisher.congestion_control,
            priority: self.publisher.priority,
            is_express: self.publisher.is_express,
            destination: self.publisher.destination,
            reliability: self.publisher.reliability,
            timestamp: self.timestamp,
            source_info: self.source_info,
            attachment: self.attachment,
        }
    }
}

impl<'b> PublisherBuilder<'b> {
    /// What [`wait`](PublisherBuilder::wait) returns.
    pub open spec fn spec_wait(self) -> Result<Declaration<'b>, KeyExprError> {
        match self.key_expr {
            Err(e) => Err(e),
            Ok(key_expr) => {
                let publisher = PendingPublisher {
                    session_id: self.session_id,
                    key_expr,
                    encoding: self.encoding,
                    congestion_control: self.congestion_control,
                    priority: self.priority,
                    is_express: self.is_express,
                    reliability: self.reliability,
                    destination: self.destination,
                };
                if key_expr.spec_is_fully_optimized(self.session_id) {
                    Ok(Declaration::Publisher { publisher })
                } else {
                    Ok(Declaration::Prefix { publisher, prefix_len: key_expr.byte_len() as u32 })
                }
            },
        }
    }

    /// Starts to declare the publisher. It fails with the error that the key
    /// expression was found with, and then nothing is asked of the session.
    /// Else the declaration begins: with `declare_prefix` where the key
    /// expression does not carry the number of a prefix of this session yet,
    /// and with `declare_publisher_inner` where it does.
    ///
    /// The length of a prefix goes into a `u32`: a key expression that is to
    /// be declared as one takes no more bytes than a `u32` counts.
    pub fn wait(self) -> (r: Result<Declaration<'b>, KeyExprError>)
        requires
            self.key_expr matches Ok(key_expr) ==> key_expr.spec_is_fully_optimized(self.session_id)
                || key_expr.byte_len() <= u32::MAX,
        ensures
            r == self.spec_wait(),
    {
        match self.key_expr {
            Err(e) => Err(e),
            Ok(key_expr) => {
                let fully_optimized = key_expr.is_fully_optimized(self.session_id);
                let prefix_len = if fully_optimized {
                    0
                } else {
                    key_expr.len() as u32
                };
                let publisher = PendingPublisher {
                    session_id: self.session_id,
                    key_expr,
                    encoding: self.encoding,
                    congestion_control: self.congestion_control,
                    priority: self.priority,
                    is_express: self.is_express,
                    reliability: self.reliability,
                    destination: self.destination,
                };
                if fully_optimized {
                    Ok(Declaration::Publisher { publisher })
                } else {
                    Ok(Declaration::Prefix { publisher, prefix_len })
                }
            },
        }
    }
}

} // verus!
