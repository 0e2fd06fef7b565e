//! The declaration of a publisher, one request to the session after the
//! other.
//!
//! A [`Declaration`] is a declaration that waits for an answer of the session.
//! [`Declaration::request`] says what it waits for, and
//! [`Declaration::reply`] takes the answer and gives the [`Step`] that
//! follows: one more request, or the end. Whoever holds the session makes the
//! requests; nothing here does.
use crate::bytes::Encoding;
use crate::key_expr::KeyExpr;
use crate::publisher::{Publisher, PublisherBuilder};
use crate::qos::{CongestionControl, Priority, Reliability};
use crate::sample::Locality;
use vstd::prelude::*;

verus! {

/// A publisher that the session has not declared yet: what its builder held,
/// with a key expression that is one.
pub struct PendingPublisher<'b> {
    pub session_id: u16,
    pub key_expr: KeyExpr<'b>,
    pub encoding: Encoding,
    pub congestion_control: CongestionControl,
    pub priority: Priority,
    pub is_express: bool,
    pub reliability: Reliability,
    pub destination: Locality,
}

/// The declaration of a publisher that waits for an answer of the session.
pub enum Declaration<'b> {
    /// `declare_prefix` is asked for the text of the key expression, which
    /// takes `prefix_len` bytes.
    Prefix { publisher: PendingPublisher<'b>, prefix_len: u32 },
    /// `declare_publisher_inner` is asked for the key expression and the
    /// destination.
    Publisher { publisher: PendingPublisher<'b> },
}

/// What a declaration asks of the session.
#[derive(Debug, PartialEq, Eq)]
pub enum SessionRequest<'r, 'b> {
    /// `declare_prefix` of this text. The session answers with the number of
    /// the prefix.
    DeclarePrefix(&'r str),
    /// `declare_publisher_inner` of this key expression for this destination.
    /// The session answers with the number of the publisher.
    DeclarePublisher(KeyExpr<'b>, Locality),
}

/// Which of its operations a declaration asks of the session.
#[derive(Clone, Copy, Debug, PartialEq, Eq, Structural)]
pub enum RequestKind {
    DeclarePrefix,
    DeclarePublisher,
}

/// How a declaration goes on after an answer of the session.
pub enum Step<'b, E> {
    /// With one more request.
    Ask(Declaration<'b>),
    /// It is over: the publisher is declared, or the session has failed.
    Done(Result<Publisher<'b>, E>),
}

impl<'b> Declaration<'b> {
    /// Which operation of the session the declaration waits for.
    pub open spec fn kind(self) -> RequestKind {
        match self {
            Declaration::Prefix { .. } => RequestKind::DeclarePrefix,
            Declaration::Publisher { .. } => RequestKind::DeclarePublisher,
        }
    }

    /// What [`reply`](Declaration::reply) returns.
    pub open spec fn spec_reply<E>(self, reply: Result<u32, E>) -> Step<'b, E> {
        match reply {
            Err(e) => Step::Done(Err(e)),
            Ok(id) => match self {
                Declaration::Prefix { publisher, prefix_len } => Step::Ask(
                    Declaration::Publisher {
                        publisher: PendingPublisher {
                            key_expr: publisher.key_expr.spec_to_wire(id, prefix_len, publisher.session_id),
                            ..publisher
                        },
                    },
                ),
                Declaration::Publisher { publisher } => Step::Done(
                    Ok(
                        Publisher {
                            session_id: publisher.session_id,
                            id,
                            key_expr: publisher.key_expr,
                            encoding: publisher.encoding,
                            congestion_control: publisher.congestion_control,
                            priority: publisher.priority,
                            is_express: publisher.is_express,
                            destination: publisher.destination,
                            reliability: publisher.reliability,
                            undeclare_on_drop: true,
                        },
                    ),
                ),
            },
        }
    }

    /// What the declaration asks of the session now.
    pub fn request(&self) -> (r: SessionRequest<'_, 'b>)
        ensures
            match *self {
                Declaration::Prefix { publisher, .. } => r matches SessionRequest::DeclarePrefix(prefix)
                    && prefix@ == publisher.key_expr.text(),
                Declaration::Publisher { publisher } => r matches SessionRequest::DeclarePublisher(
                    key_expr,
                    destination,
                ) && key_expr == publisher.key_expr && destination == publisher.destination,
            },
    {
        match self {
            Declaration::Prefix { publisher, .. } => SessionRequest::DeclarePrefix(publisher.key_expr.as_str()),
            Declaration::Publisher { publisher } => SessionRequest::DeclarePublisher(
                publisher.key_expr.clone(),
                publisher.destination,
            ),
        }
    }

    /// Takes the answer of the session to the request and goes on. A failure
    /// of the session ends the declaration with that failure. The number of
    /// the prefix puts the key expression in its wire form for this session,
    /// and the publisher is asked for next. The number of the publisher ends
    /// the declaration with the publisher, which has the settings of the
    /// builder and is to be undeclared when dropped.
    pub fn reply<E>(self, reply: Result<u32, E>) -> (r: Step<'b, E>)
        ensures
            r == self.spec_reply(reply),
    {
        match reply {
            Err(e) => Step::Done(Err(e)),
            Ok(id) => match self {
                Declaration::Prefix { publisher, prefix_len } => {
                    let session_id = publisher.session_id;
                    Step::Ask(
                        Declaration::Publisher {
                            publisher: PendingPublisher {
                                key_expr: publisher.key_expr.to_wire(id, prefix_len, session_id),
                                ..publisher
                            },
                        },
                    )
                },
                Declaration::Publisher { publisher } => Step::Done(
                    Ok(
                        Publisher {
                            session_id: publisher.session_id,
                            id,
                            key_expr: publisher.key_expr,
                            encoding: publisher.encoding,
                            congestion_control: publisher.congestion_control,
                            priority: publisher.priority,
                            is_express: publisher.is_express,
                            destination: publisher.destination,
                            reliability: publisher.reliability,
                            undeclare_on_drop: true,
                        },
                    ),
                ),
            },
        }
    }

    /// The requests that the declaration makes, this one first, while the
    /// session answers them with `replies` in their order.
    pub open spec fn requests<E>(self, replies: Seq<Result<u32, E>>) -> Seq<RequestKind>
        decreases replies.len(),
    {
        if replies.len() == 0 {
            seq![self.kind()]
        } else {
            match self.spec_reply(replies[0]) {
                Step::Ask(next) => seq![self.kind()] + next.requests(replies.skip(1)),
                Step::Done(_) => seq![self.kind()],
            }
        }
    }

    /// How the declaration ends while the session answers its requests with
    /// `replies` in their order; `None` while it still waits for an answer.
    pub open spec fn outcome<E>(self, replies: Seq<Result<u32, E>>) -> Option<Result<Publisher<'b>, E>>
        decreases replies.len(),
    {
        if replies.len() == 0 {
            None
        } else {
            match self.spec_reply(replies[0]) {
                Step::Ask(next) => next.outcome(replies.skip(1)),
                Step::Done(end) => Some(end),
            }
        }
    }
}

/// How often `kind` stands in `requests`.
pub open spec fn count(requests: Seq<RequestKind>, kind: RequestKind) -> nat {
    requests.filter(|k: RequestKind| k == kind).len()
}

/// Whatever the session answers, to declare a publisher asks it for a prefix
/// at most once, and where a publisher comes out, it was asked for exactly
/// once. A builder whose key expression is an error asks nothing.
pub proof fn lemma_declaration_requests<'b, E>(builder: PublisherBuilder<'b>, replies: Seq<Result<u32, E>>)
    ensures
        builder.key_expr is Err <==> builder.spec_wait() is Err,
        builder.spec_wait() matches Ok(declaration) ==> {
            let requests = declaration.requests(replies);
            &&& count(requests, RequestKind::DeclarePrefix) <= 1
            &&& count(requests, RequestKind::DeclarePublisher) <= 1
            &&& declaration.outcome(replies) matches Some(Ok(_)) ==> count(
                requests,
                RequestKind::DeclarePublisher,
            ) == 1
        },
{
    if let Ok(declaration) = builder.spec_wait() {
        lemma_requests_shape(declaration, replies);
        let requests = declaration.requests(replies);
        lemma_count_short(requests);
    }
}

/// The publisher that a declaration ends with, whatever the session answered
/// on the way, is the one that the builder described: in its session, on its
/// key expression, which now carries the number of a prefix of that session,
/// with its settings, and to be undeclared when dropped.
pub proof fn lemma_declared_publisher<'b, E>(
    builder: PublisherBuilder<'b>,
    replies: Seq<Result<u32, E>>,
    publisher: Publisher<'b>,
)
    requires
        builder.spec_wait() matches Ok(declaration) && declaration.outcome(replies) == Some(
            Ok::<Publisher<'b>, E>(publisher),
        ),
    ensures
        builder.key_expr matches Ok(key_expr) && publisher.key_expr.text() == key_expr.text(),
        publisher.key_expr.spec_is_fully_optimized(builder.session_id),
        publisher.session_id == builder.session_id,
        publisher.encoding == builder.encoding,
        publisher.congestion_control == builder.congestion_control,
        publisher.priority == builder.priority,
        publisher.is_express == builder.is_express,
        publisher.destination == builder.destination,
        publisher.reliability == builder.reliability,
        publisher.undeclare_on_drop,
{
    let declaration = builder.spec_wait()->Ok_0;
    match declaration.spec_reply(replies[0]) {
        Step::Ask(next) => {
            assert(next.outcome(replies.skip(1)) == Some(Ok::<Publisher<'b>, E>(publisher)));
        },
        Step::Done(_) => {},
    }
}

/// The requests of a declaration are one of three runs, and a publisher comes
/// out only of those that end with the request for it.
proof fn lemma_requests_shape<'b, E>(declaration: Declaration<'b>, replies: Seq<Result<u32, E>>)
    ensures
        ({
            let requests = declaration.requests(replies);
            &&& requests == seq![RequestKind::DeclarePrefix] || requests == seq![
                RequestKind::DeclarePublisher,
            ] || requests == seq![RequestKind::DeclarePrefix, RequestKind::DeclarePublisher]
            &&& declaration.outcome(replies) matches Some(Ok(_)) ==> requests.last()
                == RequestKind::DeclarePublisher
            &&& declaration is Publisher ==> requests == seq![RequestKind::DeclarePublisher]
        }),
    decreases replies.len(),
{
    if replies.len() > 0 {
        match declaration.spec_reply(replies[0]) {
            Step::Ask(next) => {
                lemma_requests_shape(next, replies.skip(1));
                assert(seq![RequestKind::DeclarePrefix] + seq![RequestKind::DeclarePublisher] =~= seq![
                    RequestKind::DeclarePrefix,
                    RequestKind::DeclarePublisher,
                ]);
            },
            Step::Done(_) => {},
        }
    }
}

/// The counts in the runs of one and of two requests.
proof fn lemma_count_short(requests: Seq<RequestKind>)
    requires
        requests == seq![RequestKind::DeclarePrefix] || requests == seq![RequestKind::DeclarePublisher]
            || requests == seq![RequestKind::DeclarePrefix, RequestKind::DeclarePublisher],
    ensures
        count(requests, RequestKind::DeclarePrefix) == (if requests[0] == RequestKind::DeclarePrefix {
            1nat
        } else {
            0nat
        }),
        count(requests, RequestKind::DeclarePublisher) == (if requests.last() == RequestKind::DeclarePublisher {
            1nat
        } else {
            0nat
        }),
{
    reveal_with_fuel(Seq::filter, 3);
    if requests.len() == 2 {
        assert(requests.drop_last() =~= seq![RequestKind::DeclarePrefix]);
        assert(requests.drop_last().drop_last() =~= Seq::<RequestKind>::empty());
    } else {
        assert(requests.drop_last() =~= Seq::<RequestKind>::empty());
    }
}

} // verus!
