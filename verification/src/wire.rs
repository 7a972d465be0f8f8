use crate::addr::Ipv4Address;
use crate::dns::{Answer, DomainName, DomainNameView, QueryMessage, QueryMessageView};
use trust_dns::op::{Message, MessageType, OpCode, Query};
use trust_dns::proto::error::ProtoError;
use trust_dns::rr::{Name, RData, RecordType};
use vstd::prelude::*;

verus! {

/// The error of the `trust-dns` crate. Nothing is read from it.
#[verifier::external_type_specification]
#[verifier::external_body]
pub struct ExProtoError(ProtoError);

/// The name that `Name::from_ascii` reads from a text, or `None` where it
/// refuses the text.
pub uninterp spec fn parsed_domain(text: Seq<char>) -> Option<DomainNameView>;

/// The bytes that `Message::to_vec` writes for a message with these header
/// fields and questions, or `None` where it fails.
pub uninterp spec fn encoded_query(query: QueryMessageView) -> Option<Seq<u8>>;

/// The answer section of the message that `Message::from_vec` reads from the
/// bytes, or `None` where it refuses them.
pub uninterp spec fn decoded_answers(datagram: Seq<u8>) -> Option<Seq<Answer>>;

/// `Name::from_ascii` of `trust-dns`. The name comes back as its labels
/// (`Name::iter`) and its `is_fqdn` flag. The contract only gives the result
/// a name: the same text always reads as the same name.
#[verifier::external_body]
pub(crate) fn parse_name(domain: &str) -> (name: Result<DomainName, ProtoError>)
    ensures
        match name {
            Ok(n) => parsed_domain(domain@) == Some(n@),
            Err(_) => parsed_domain(domain@) is None,
        },
{
    let name = Name::from_ascii(domain)?;
    Ok(DomainName { labels: name.iter().map(|label| label.to_vec()).collect(), fqdn: name.is_fqdn() })
}

/// `Message::to_vec` of `trust-dns`, on the message that has the given id,
/// type, opcode (`OpCode::from_u8`) and recursion flag, and one
/// `Query::query` of class `IN` for each question, its name put together
/// again by `Name::from_labels` and `Name::set_fqdn`. A failure of one of
/// these is a failure of the whole. A message with more questions than its
/// header can count is larger than the encoder allows, which is reported as
/// an error before the count is written. The contract only gives the result
/// a name: the same message always has the same wire format.
#[verifier::external_body]
pub(crate) fn encode_query(query: &QueryMessage) -> (wire: Result<Vec<u8>, ProtoError>)
    ensures
        match wire {
            Ok(bytes) => encoded_query(query@) == Some(bytes@),
            Err(_) => encoded_query(query@) is None,
        },
{
    let mut message = Message::new();
    message.set_id(query.id);
    message.set_message_type(if query.response { MessageType::Response } else { MessageType::Query });
    message.set_op_code(OpCode::from_u8(query.op_code)?);
    message.set_recursion_desired(query.recursion_desired);
    for question in query.questions.iter() {
        let mut name = Name::from_labels(question.name.labels.clone())?;
        name.set_fqdn(question.name.fqdn);
        message.add_query(Query::query(name, RecordType::from(question.record_type)));
    }
    message.to_vec()
}

/// `Message::from_vec` of `trust-dns`. Of the message only the answer
/// section comes back: of each record its type as a number and, where its
/// data is `RData::A`, the address. The contract only gives the result a
/// name: the same bytes always read as the same answers.
#[verifier::external_body]
pub(crate) fn decode_answers(datagram: &[u8]) -> (answers: Result<Vec<Answer>, ProtoError>)
    ensures
        match answers {
            Ok(list) => decoded_answers(datagram@) == Some(list@),
            Err(_) => decoded_answers(datagram@) is None,
        },
{
    let message = Message::from_vec(datagram)?;
    let mut answers = Vec::new();
    for record in message.answers() {
        let address = match record.rdata() {
            RData::A(ip) => Some(Ipv4Address { a: ip.octets()[0], b: ip.octets()[1], c: ip.octets()[2], d: ip.octets()[3] }),
            _ => None,
        };
        answers.push(Answer { record_type: u16::from(record.record_type()), address });
    }
    Ok(answers)
}

} // verus!
