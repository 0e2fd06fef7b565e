//! Key expressions: the names of the topics that samples are published on.
//!
//! A key expression is either the text alone or the text together with what
//! a session knows it by on the wire: the number under which the session has
//! declared a prefix of it, and how long that prefix is.
use vstd::prelude::*;

verus! {

/// Which side of a link an expression number belongs to.
#[derive(Clone, Copy, Debug, PartialEq, Eq, Structural)]
pub enum Mapping {
    Receiver,
    Sender,
}

/// The name of a topic, owned or borrowed, with or without its wire form.
#[allow(inconsistent_fields)]
#[derive(Debug, PartialEq, Eq)]
pub enum KeyExpr<'a> {
    /// Borrowed text.
    Borrowed(&'a str),
    /// Borrowed text that a session has declared a prefix of.
    BorrowedWire { key_expr: &'a str, expr_id: u32, mapping: Mapping, prefix_len: u32, session_id: u16 },
    /// Owned text.
    Owned(String),
    /// Owned text that a session has declared a prefix of.
    Wire { key_expr: String, expr_id: u32, mapping: Mapping, prefix_len: u32, session_id: u16 },
}

impl<'a> KeyExpr<'a> {
    /// The text of the key expression.
    pub open spec fn text(self) -> Seq<char> {
        match self {
            KeyExpr::Borrowed(key_expr) => key_expr@,
            KeyExpr::BorrowedWire { key_expr, .. } => key_expr@,
            KeyExpr::Owned(key_expr) => key_expr@,
            KeyExpr::Wire { key_expr, .. } => key_expr@,
        }
    }

    /// The number of bytes that the text takes.
    pub open spec fn byte_len(self) -> nat {
        vstd::utf8::encode_utf8(self.text()).len()
    }

    /// Whether the key expression carries the number of a prefix declared in
    /// the session `session_id`.
    pub open spec fn spec_is_fully_optimized(self, session_id: u16) -> bool {
        match self {
            KeyExpr::BorrowedWire { session_id: owner, .. } => owner == session_id,
            KeyExpr::Wire { session_id: owner, .. } => owner == session_id,
            _ => false,
        }
    }

    /// The same text, borrowed or owned as before, in the wire form for the
    /// prefix that the session `session_id` has declared as `expr_id`.
    pub open spec fn spec_to_wire(self, expr_id: u32, prefix_len: u32, session_id: u16) -> Self {
        match self {
            KeyExpr::Borrowed(key_expr) => KeyExpr::BorrowedWire {
                key_expr,
                expr_id,
                mapping: Mapping::Sender,
                prefix_len,
                session_id,
            },
            KeyExpr::BorrowedWire { key_expr, .. } => KeyExpr::BorrowedWire {
                key_expr,
                expr_id,
                mapping: Mapping::Sender,
                prefix_len,
                session_id,
            },
            KeyExpr::Owned(key_expr) => KeyExpr::Wire {
                key_expr,
                expr_id,
                mapping: Mapping::Sender,
                prefix_len,
                session_id,
            },
            KeyExpr::Wire { key_expr, .. } => KeyExpr::Wire {
                key_expr,
                expr_id,
                mapping: Mapping::Sender,
                prefix_len,
                session_id,
            },
        }
    }

    /// The text of the key expression.
    pub fn as_str(&self) -> (s: &str)
        ensures
            s@ == self.text(),
    {
        match self {
            KeyExpr::Borrowed(key_expr) => key_expr,
            KeyExpr::BorrowedWire { key_expr, .. } => key_expr,
            KeyExpr::Owned(key_expr) => key_expr.as_str(),
            KeyExpr::Wire { key_expr, .. } => key_expr.as_str(),
        }
    }

    /// The number of bytes that the text takes.
    pub fn len(&self) -> (n: usize)
        ensures
            n == self.byte_len(),
    {
        self.as_str().as_bytes().len()
    }

    /// Whether the key expression carries the number of a prefix declared in
    /// the session `session_id`.
    pub fn is_fully_optimized(&self, session_id: u16) -> (b: bool)
        ensures
            b == self.spec_is_fully_optimized(session_id),
    {
        match self {
            KeyExpr::BorrowedWire { session_id: owner, .. } => *owner == session_id,
            KeyExpr::Wire { session_id: owner, .. } => *owner == session_id,
            _ => false,
        }
    }

    /// Puts the key expression in the wire form for the prefix that the
    /// session `session_id` has declared as `expr_id`. The text stays borrowed
    /// where it was borrowed and owned where it was owned.
    pub fn to_wire(self, expr_id: u32, prefix_len: u32, session_id: u16) -> (r: Self)
        ensures
            r == self.spec_to_wire(expr_id, prefix_len, session_id),
            r.text() == self.text(),
            r.spec_is_fully_optimized(session_id),
    {
        match self {
            KeyExpr::Borrowed(key_expr) | KeyExpr::BorrowedWire { key_expr, .. } => KeyExpr::BorrowedWire {
                key_expr,
                expr_id,
                mapping: Mapping::Sender,
                prefix_len,
                session_id,
            },
            KeyExpr::Owned(key_expr) | KeyExpr::Wire { key_expr, .. } => KeyExpr::Wire {
                key_expr,
                expr_id,
                mapping: Mapping::Sender,
                prefix_len,
                session_id,
            },
        }
    }
}

impl<'a> Clone for KeyExpr<'a> {
    /// An equal key expression. Owned text is copied, borrowed text is
    /// borrowed once more.
    fn clone(&self) -> (r: Self)
        ensures
            r == *self,
    {
        match self {
            KeyExpr::Borrowed(key_expr) => KeyExpr::Borrowed(key_expr),
            KeyExpr::BorrowedWire { key_expr, expr_id, mapping, prefix_len, session_id } => KeyExpr::BorrowedWire {
                key_expr,
                expr_id: *expr_id,
                mapping: *mapping,
                prefix_len: *prefix_len,
                session_id: *session_id,
            },
            KeyExpr::Owned(key_expr) => KeyExpr::Owned(key_expr.clone()),
            KeyExpr::Wire { key_expr, expr_id, mapping, prefix_len, session_id } => KeyExpr::Wire {
                key_expr: key_expr.clone(),
                expr_id: *expr_id,
                mapping: *mapping,
                prefix_len: *prefix_len,
                session_id: *session_id,
            },
        }
    }
}

} // verus!
