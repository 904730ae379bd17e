//! Zap receipts (NIP-57): the recipient, amount, invoice, sender, message
//! and zapped event read from a receipt's tags.

use vstd::prelude::*;
use vstd::string::*;
use crate::config::{bounded_value, parse_bounded};
use crate::json::{json_str_field, spec_json_str_field};
use crate::text::str_eq;

verus! {

/// A zap receipt as a relay delivers it: its tags, each a list of texts,
/// and when it was created (seconds since the Unix epoch).
#[derive(Debug)]
pub struct ZapReceipt {
    pub tags: Vec<Vec<String>>,
    pub created_at: i64,
}

/// A parsed zap.
#[derive(Debug)]
pub struct ZapEvent {
    pub recipient_pubkey: String,
    pub sender_pubkey: Option<String>,
    pub amount_msat: u64,
    pub timestamp: i64,
    pub invoice: Option<String>,
    pub message: Option<String>,
    /// The event being zapped, for zaps on proposals.
    pub zapped_event_id: Option<String>,
}

/// Why a receipt cannot be read as a zap.
#[derive(Debug, PartialEq, Eq, Structural)]
pub enum ZapError {
    MissingRecipient,
}

/// The position of the first tag named `name`, if any.
pub open spec fn first_tag(tags: Seq<Vec<String>>, name: Seq<char>) -> Option<int>
    decreases tags.len(),
{
    if tags.len() == 0 {
        None
    } else {
        match first_tag(tags.drop_last(), name) {
            Some(k) => Some(k),
            None => if tags.last()@.len() > 0 && tags.last()@[0]@ == name { Some(tags.len() - 1) } else { None },
        }
    }
}

/// The value (second entry) of the first tag named `name`; none where there
/// is no such tag or it has no value.
pub open spec fn tag_value(tags: Seq<Vec<String>>, name: Seq<char>) -> Option<Seq<char>> {
    match first_tag(tags, name) {
        Some(k) => if tags[k]@.len() > 1 { Some(tags[k]@[1]@) } else { None },
        None => None,
    }
}

proof fn lemma_first_tag_step(tags: Seq<Vec<String>>, i: int, name: Seq<char>)
    requires
        0 <= i < tags.len(),
    ensures
        first_tag(tags.subrange(0, i + 1), name) == (match first_tag(tags.subrange(0, i), name) {
            Some(k) => Some(k),
            None => if tags[i]@.len() > 0 && tags[i]@[0]@ == name { Some(i) } else { None },
        }),
{
    assert(tags.subrange(0, i + 1).drop_last() =~= tags.subrange(0, i));
}

proof fn lemma_first_tag_in_prefix(tags: Seq<Vec<String>>, i: int, name: Seq<char>)
    requires
        0 <= i <= tags.len(),
        first_tag(tags.subrange(0, i), name) is Some,
    ensures
        first_tag(tags, name) == first_tag(tags.subrange(0, i), name),
        first_tag(tags, name)->0 < i,
    decreases tags.len() - i,
{
    lemma_first_tag_bound(tags.subrange(0, i), name);
    if i < tags.len() {
        lemma_first_tag_step(tags, i, name);
        lemma_first_tag_in_prefix(tags, i + 1, name);
    } else {
        assert(tags.subrange(0, i) =~= tags);
    }
}

proof fn lemma_first_tag_bound(tags: Seq<Vec<String>>, name: Seq<char>)
    ensures
        first_tag(tags, name) matches Some(k) ==> 0 <= k < tags.len(),
    decreases tags.len(),
{
    if tags.len() > 0 {
        lemma_first_tag_bound(tags.drop_last(), name);
    }
}

/// The value of the first tag named `name`.
pub fn find_tag_value(tags: &Vec<Vec<String>>, name: &str) -> (r: Option<String>)
    ensures
        match r { Some(v) => tag_value(tags@, name@) == Some(v@), None => tag_value(tags@, name@) is None },
{
    let n = tags.len();
    let mut i: usize = 0;
    while i < n
        invariant
            n == tags@.len(),
            i <= n,
            first_tag(tags@.subrange(0, i as int), name@) is None,
        decreases n - i,
    {
        proof {
            lemma_first_tag_step(tags@, i as int, name@);
        }
        let tag = &tags[i];
        if tag.len() > 0 && str_eq(tag[0].as_str(), name) {
            proof {
                lemma_first_tag_in_prefix(tags@, i + 1, name@);
            }
            if tag.len() > 1 {
                return Some(tag[1].clone());
            } else {
                return None;
            }
        }
        i = i + 1;
    }
    proof {
        assert(tags@.subrange(0, n as int) =~= tags@);
    }
    None
}

/// The zap a receipt records: the recipient from the first `p` tag (required),
/// the amount from the first `amount` tag where it is a number (else zero),
/// the invoice from `bolt11`, the sender and message from the `pubkey` and
/// `content` of the JSON in `description`, and the zapped event from `e`.
pub open spec fn zap_of(r: ZapReceipt, z: ZapEvent) -> bool {
    let tags = r.tags@;
    let desc = tag_value(tags, "description"@);
    &&& tag_value(tags, "p"@) == Some(z.recipient_pubkey@)
    &&& z.amount_msat == (match tag_value(tags, "amount"@) {
        Some(a) => match bounded_value(a, u64::MAX as nat) { Some(v) => v as u64, None => 0u64 },
        None => 0u64,
    })
    &&& (match z.invoice { Some(s) => Some(s@), None => None::<Seq<char>> }) == tag_value(tags, "bolt11"@)
    &&& (match z.sender_pubkey { Some(s) => Some(s@), None => None::<Seq<char>> }) == (match desc {
        Some(d) => spec_json_str_field(d, "pubkey"@),
        None => None,
    })
    &&& (match z.message { Some(s) => Some(s@), None => None::<Seq<char>> }) == (match desc {
        Some(d) => spec_json_str_field(d, "content"@),
        None => None,
    })
    &&& (match z.zapped_event_id { Some(s) => Some(s@), None => None::<Seq<char>> }) == tag_value(tags, "e"@)
    &&& z.timestamp == r.created_at
}

fn opt_view(o: &Option<String>) -> (r: Option<String>)
    ensures
        r == *o,
{
    crate::ots::anchor::clone_opt_string(o)
}

/// Reads a zap receipt; one without a recipient is refused.
pub fn parse_zap_event(receipt: &ZapReceipt) -> (r: Result<ZapEvent, ZapError>)
    ensures
        tag_value(receipt.tags@, "p"@) is None ==> r == Err::<ZapEvent, ZapError>(ZapError::MissingRecipient),
        tag_value(receipt.tags@, "p"@) is Some ==> (r matches Ok(z) && zap_of(*receipt, z)),
{
    let recipient = match find_tag_value(&receipt.tags, "p") {
        Some(p) => p,
        None => return Err(ZapError::MissingRecipient),
    };
    let amount_msat: u64 = match find_tag_value(&receipt.tags, "amount") {
        Some(a) => match parse_bounded(a.as_str(), u64::MAX) {
            Some(v) => v,
            None => 0,
        },
        None => 0,
    };
    let invoice = find_tag_value(&receipt.tags, "bolt11");
    let (sender_pubkey, message) = match find_tag_value(&receipt.tags, "description") {
        Some(d) => (json_str_field(d.as_str(), "pubkey"), json_str_field(d.as_str(), "content")),
        None => (None, None),
    };
    let zapped_event_id = find_tag_value(&receipt.tags, "e");
    Ok(ZapEvent {
        recipient_pubkey: recipient,
        sender_pubkey,
        amount_msat,
        timestamp: receipt.created_at,
        invoice,
        message,
        zapped_event_id,
    })
}

} // verus!
