use crate::addr::{Endpoint, Ipv4Address};
use crate::rng::random_u16;
use crate::wire::{
    decode_answers, decoded_answers, encode_query, encoded_query, parse_name, parsed_domain,
};
use vstd::prelude::*;

verus! {

/// The port that name servers listen on.
pub const DNS_PORT: u16 = 53;

/// How long one receive may block, in seconds.
pub const READ_TIMEOUT_SECS: u64 = 5;

/// Size of the buffer that a response is received into, in bytes.
pub const RESPONSE_BUFFER_LEN: usize = 512;

/// The record type of an address (`A`) record.
pub const TYPE_A: u16 = 1;

/// The opcode of a standard query.
pub const OPCODE_QUERY: u8 = 0;

/// How often a transaction id is drawn before the fallback is taken.
pub const MAX_ID_DRAWS: u8 = 32;

/// The id that is used if every draw gave zero.
pub const FALLBACK_ID: u16 = 1;

/// Why a resolution failed.
#[derive(Clone, Copy, Debug, PartialEq, Eq, Structural)]
pub enum DnsError {
    /// The domain name is not well formed.
    ParseDomain,
    /// The server's address is not an IPv4 address.
    ParseDnsServerAddr,
    /// The query could not be put into wire format.
    Encoding,
    /// The response could not be read.
    Decoding,
    /// The socket could not be opened or configured.
    Network,
    /// The query could not be sent.
    Sending,
    /// No datagram could be received, or none came in time.
    Receiving,
}

/// A domain name as a value: its labels from the left, and whether it is
/// fully qualified.
pub struct DomainNameView {
    pub labels: Seq<Seq<u8>>,
    pub fqdn: bool,
}

/// A parsed domain name.
#[derive(Debug)]
pub struct DomainName {
    pub labels: Vec<Vec<u8>>,
    pub fqdn: bool,
}

impl View for DomainName {
    type V = DomainNameView;

    open spec fn view(&self) -> DomainNameView {
        DomainNameView { labels: self.labels.deep_view(), fqdn: self.fqdn }
    }
}

/// A question as a value.
pub struct QuestionView {
    pub name: DomainNameView,
    pub record_type: u16,
}

/// One entry of the question section: a name and the type of record asked for.
#[derive(Debug)]
pub struct Question {
    pub name: DomainName,
    pub record_type: u16,
}

impl View for Question {
    type V = QuestionView;

    open spec fn view(&self) -> QuestionView {
        QuestionView { name: self.name@, record_type: self.record_type }
    }
}

/// A query as a value.
pub struct QueryMessageView {
    pub id: u16,
    pub response: bool,
    pub op_code: u8,
    pub recursion_desired: bool,
    pub questions: Seq<QuestionView>,
}

/// A message on its way to a name server: the header fields that are set,
/// and the question section.
#[derive(Debug)]
pub struct QueryMessage {
    pub id: u16,
    pub response: bool,
    pub op_code: u8,
    pub recursion_desired: bool,
    pub questions: Vec<Question>,
}

impl View for QueryMessage {
    type V = QueryMessageView;

    open spec fn view(&self) -> QueryMessageView {
        QueryMessageView {
            id: self.id,
            response: self.response,
            op_code: self.op_code,
            recursion_desired: self.recursion_desired,
            questions: Seq::new(self.questions@.len(), |i: int| self.questions@[i]@),
        }
    }
}

/// The query for the address of `name` under the transaction id `id`: a
/// standard query with recursion desired and one question, for `A` records.
pub open spec fn address_query(id: u16, name: DomainNameView) -> QueryMessageView {
    QueryMessageView {
        id,
        response: false,
        op_code: OPCODE_QUERY,
        recursion_desired: true,
        questions: seq![QuestionView { name, record_type: TYPE_A }],
    }
}

/// Whether the message is a query for one address: a standard query, not a
/// response, with a transaction id that is not zero, recursion desired, and
/// exactly one question, for `A` records.
pub open spec fn is_address_query(query: QueryMessageView) -> bool {
    &&& query.id != 0
    &&& !query.response
    &&& query.op_code == OPCODE_QUERY
    &&& query.recursion_desired
    &&& query.questions.len() == 1
    &&& query.questions[0].record_type == TYPE_A
}

/// A query that is built for a name under an id that is not zero is a query
/// for one address, and its one question is about that name.
pub proof fn lemma_address_query_shape(id: u16, name: DomainNameView)
    requires
        id != 0,
    ensures
        is_address_query(address_query(id, name)),
        address_query(id, name).id == id,
        address_query(id, name).questions[0].name == name,
{
}

impl QueryMessage {
    /// Builds the query for the address of `name` under the transaction id
    /// `id`, which is not zero: zero stands for "unset".
    pub fn new(id: u16, name: DomainName) -> (query: QueryMessage)
        requires
            id != 0,
        ensures
            query@ == address_query(id, name@),
            is_address_query(query@),
            query@.questions.len() == 1,
            query@.recursion_desired,
            query@.op_code == OPCODE_QUERY,
    {
        let mut questions: Vec<Question> = Vec::new();
        questions.push(Question { name, record_type: TYPE_A });
        let query = QueryMessage {
            id,
            response: false,
            op_code: OPCODE_QUERY,
            recursion_desired: true,
            questions,
        };
        assert(query@.questions =~= seq![QuestionView { name: name@, record_type: TYPE_A }]);
        query
    }
}

/// One record of the answer section: its type and, where its data is an
/// IPv4 address, that address.
#[derive(Clone, Copy, Debug, PartialEq, Eq, Structural)]
pub struct Answer {
    pub record_type: u16,
    pub address: Option<Ipv4Address>,
}

/// The candidate as a transaction id: zero stands for "unset" and is no id.
pub fn accept_id(candidate: u16) -> (id: Option<u16>)
    ensures
        id == if candidate == 0 { None } else { Some(candidate) },
{
    if candidate == 0 {
        None
    } else {
        Some(candidate)
    }
}

/// What follows from one draw, after `draws_so_far` draws that all gave
/// zero: a candidate that is not zero is the id, unchanged; a zero is drawn
/// again, unless this was the last of `MAX_ID_DRAWS` draws, where
/// `FALLBACK_ID` is the id. `None` asks for another draw.
pub fn after_draw(draws_so_far: u8, candidate: u16) -> (outcome: Option<u16>)
    ensures
        outcome == if candidate != 0 {
            Some(candidate)
        } else if draws_so_far + 1 >= MAX_ID_DRAWS {
            Some(FALLBACK_ID)
        } else {
            None
        },
        outcome matches Some(id) ==> id != 0,
{
    match accept_id(candidate) {
        Some(id) => Some(id),
        None => if draws_so_far >= MAX_ID_DRAWS - 1 {
            Some(FALLBACK_ID)
        } else {
            None
        },
    }
}

/// A random transaction id, never zero. Candidates are drawn one by one and
/// each is judged by `after_draw`: the first that is not zero is the id;
/// should `MAX_ID_DRAWS` draws in a row give zero, `FALLBACK_ID` is taken.
pub fn message_id() -> (id: u16)
    ensures
        id != 0,
{
    let mut draws: u8 = 0;
    while draws < MAX_ID_DRAWS
        invariant
            draws <= MAX_ID_DRAWS,
        decreases MAX_ID_DRAWS - draws,
    {
        let candidate: u16 = random_u16();
        match after_draw(draws, candidate) {
            Some(id) => {
                return id;
            },
            None => {},
        }
        draws = draws + 1;
    }
    FALLBACK_ID
}

/// Reads a domain name. Fails with `ParseDomain`, and only then, where the
/// text is no domain name.
pub fn parse_domain(domain: &str) -> (name: Result<DomainName, DnsError>)
    ensures
        match name {
            Ok(n) => parsed_domain(domain@) == Some(n@),
            Err(e) => parsed_domain(domain@) is None && e == DnsError::ParseDomain,
        },
{
    match parse_name(domain) {
        Ok(n) => Ok(n),
        Err(_) => Err(DnsError::ParseDomain),
    }
}

/// What putting a query into wire format gives.
pub open spec fn wire_outcome(query: QueryMessageView) -> Result<Seq<u8>, DnsError> {
    match encoded_query(query) {
        Some(bytes) => Ok(bytes),
        None => Err(DnsError::Encoding),
    }
}

/// Puts a query into wire format. Fails with `Encoding`, and only then,
/// where the message has no wire format: a name of more than 255 bytes, or
/// an opcode that does not exist.
pub fn encode(query: &QueryMessage) -> (wire: Result<Vec<u8>, DnsError>)
    ensures
        match wire {
            Ok(bytes) => wire_outcome(query@) == Ok::<Seq<u8>, DnsError>(bytes@),
            Err(e) => wire_outcome(query@) == Err::<Seq<u8>, DnsError>(e),
        },
{
    match encode_query(query) {
        Ok(bytes) => Ok(bytes),
        Err(_) => Err(DnsError::Encoding),
    }
}

/// Whether the record is an address record.
pub open spec fn is_address_record(answer: Answer) -> bool {
    answer.record_type == TYPE_A
}

/// What one address record resolves to. A record of the address type that
/// carries no address is malformed.
pub open spec fn record_outcome(answer: Answer) -> Result<Option<Ipv4Address>, DnsError> {
    match answer.address {
        Some(address) => Ok(Some(address)),
        None => Err(DnsError::Decoding),
    }
}

/// What an answer section resolves to: the address of the first address
/// record in answer order, and nothing where there is no such record.
pub open spec fn selected(answers: Seq<Answer>) -> Result<Option<Ipv4Address>, DnsError>
    decreases answers.len(),
{
    if answers.len() == 0 {
        Ok(None)
    } else if is_address_record(answers[0]) {
        record_outcome(answers[0])
    } else {
        selected(answers.drop_first())
    }
}

/// Scans the answers in order and returns the address of the first address
/// record. That there is none is no error.
pub fn select_address(answers: &Vec<Answer>) -> (outcome: Result<Option<Ipv4Address>, DnsError>)
    ensures
        outcome == selected(answers@),
{
    let mut i: usize = 0;
    assert(answers@.skip(0) =~= answers@);
    while i < answers.len()
        invariant
            i <= answers@.len(),
            selected(answers@) == selected(answers@.skip(i as int)),
        decreases answers@.len() - i,
    {
        let answer: Answer = answers[i];
        assert(answers@.skip(i as int)[0] == answer);
        if answer.record_type == TYPE_A {
            return match answer.address {
                Some(address) => Ok(Some(address)),
                None => Err(DnsError::Decoding),
            };
        }
        assert(answers@.skip(i as int).drop_first() =~= answers@.skip(i + 1));
        i = i + 1;
    }
    assert(answers@.skip(i as int).len() == 0);
    Ok(None)
}

/// First match in answer order: an address record that no address record
/// precedes decides the outcome, whatever follows it and whatever other
/// records stand before it.
pub proof fn lemma_first_address_record_decides(answers: Seq<Answer>, i: int)
    requires
        0 <= i < answers.len(),
        is_address_record(answers[i]),
        forall|j: int| 0 <= j < i ==> !is_address_record(#[trigger] answers[j]),
    ensures
        selected(answers) == record_outcome(answers[i]),
    decreases i,
{
    if i > 0 {
        let rest = answers.drop_first();
        assert(!is_address_record(answers[0]));
        assert(rest[i - 1] == answers[i]);
        assert forall|j: int| 0 <= j < i - 1 implies !is_address_record(#[trigger] rest[j]) by {
            assert(rest[j] == answers[j + 1]);
        }
        lemma_first_address_record_decides(rest, i - 1);
    }
}

/// Answers without an address record resolve to no address, and that is no
/// error.
pub proof fn lemma_no_address_record(answers: Seq<Answer>)
    requires
        forall|j: int| 0 <= j < answers.len() ==> !is_address_record(#[trigger] answers[j]),
    ensures
        selected(answers) == Ok::<Option<Ipv4Address>, DnsError>(None),
    decreases answers.len(),
{
    if answers.len() > 0 {
        let rest = answers.drop_first();
        assert(!is_address_record(answers[0]));
        assert forall|j: int| 0 <= j < rest.len() implies !is_address_record(#[trigger] rest[j]) by {
            assert(rest[j] == answers[j + 1]);
        }
        lemma_no_address_record(rest);
    }
}

/// An outcome with an address is the address of a record of the address
/// type that stands in the answers.
pub proof fn lemma_selected_address_is_answered(answers: Seq<Answer>, address: Ipv4Address)
    requires
        selected(answers) == Ok::<Option<Ipv4Address>, DnsError>(Some(address)),
    ensures
        exists|i: int|
            0 <= i < answers.len() && is_address_record(#[trigger] answers[i]) && answers[i].address
                == Some(address),
    decreases answers.len(),
{
    if answers.len() > 0 {
        if is_address_record(answers[0]) {
            assert(answers[0].address == Some(address));
        } else {
            let rest = answers.drop_first();
            lemma_selected_address_is_answered(rest, address);
            let i = choose|i: int|
                0 <= i < rest.len() && is_address_record(#[trigger] rest[i]) && rest[i].address
                    == Some(address);
            assert(answers[i + 1] == rest[i]);
        }
    }
}

/// What a datagram from the server resolves to.
pub open spec fn response_outcome(datagram: Seq<u8>) -> Result<Option<Ipv4Address>, DnsError> {
    match decoded_answers(datagram) {
        Some(answers) => selected(answers),
        None => Err(DnsError::Decoding),
    }
}

/// Reads a response. Fails with `Decoding`, and only then, where the bytes
/// are no DNS message or the first address record carries no address.
pub fn interpret(datagram: &[u8]) -> (outcome: Result<Option<Ipv4Address>, DnsError>)
    ensures
        outcome == response_outcome(datagram@),
{
    match decode_answers(datagram) {
        Ok(answers) => select_address(&answers),
        Err(_) => Err(DnsError::Decoding),
    }
}

/// What became of a datagram that arrived on the resolver's socket.
#[derive(Clone, Copy, Debug, PartialEq, Eq)]
pub enum Reception {
    /// It did not come from the server: drop it and receive again.
    Ignored,
    /// It came from the server and ends the exchange with this outcome.
    Accepted(Result<Option<Ipv4Address>, DnsError>),
}

/// An exchange as a value: the server and the query.
pub struct ExchangeView {
    pub server: Endpoint,
    pub query: QueryMessageView,
}

/// One exchange with one name server: a query goes out, and the first
/// datagram that comes back from the server's own address and port is the
/// response. The id of the response is not compared with that of the query.
#[derive(Debug)]
pub struct Exchange {
    server: Endpoint,
    query: QueryMessage,
}

impl View for Exchange {
    type V = ExchangeView;

    closed spec fn view(&self) -> ExchangeView {
        ExchangeView { server: self.server, query: self.query@ }
    }
}

impl Exchange {
    /// Every exchange goes to port 53, under an id that is not zero, with a
    /// standard query that desires recursion and asks one question, for an
    /// address.
    #[verifier::type_invariant]
    spec fn well_formed(&self) -> bool {
        &&& self.server.port == DNS_PORT
        &&& is_address_query(self.query@)
    }

    /// Prepares the exchange with the server at `server_address`, port 53,
    /// about the address of `name`, under a fresh random transaction id.
    pub fn new(server_address: Ipv4Address, name: DomainName) -> (exchange: Exchange)
        ensures
            exchange@.server == (Endpoint { address: server_address, port: DNS_PORT }),
            exchange@.query.id != 0,
            exchange@.query == address_query(exchange@.query.id, name@),
    {
        let id: u16 = message_id();
        Exchange::with_id(server_address, name, id)
    }

    /// Prepares the exchange under the transaction id `id`.
    pub fn with_id(server_address: Ipv4Address, name: DomainName, id: u16) -> (exchange: Exchange)
        requires
            id != 0,
        ensures
            exchange@ == (ExchangeView {
                server: Endpoint { address: server_address, port: DNS_PORT },
                query: address_query(id, name@),
            }),
    {
        Exchange {
            server: Endpoint::new(server_address, DNS_PORT),
            query: QueryMessage::new(id, name),
        }
    }

    /// Where the query is sent, and where the response must come from:
    /// port 53 of the server.
    pub fn server(&self) -> (server: Endpoint)
        ensures
            server == self@.server,
            server.port == DNS_PORT,
    {
        proof {
            use_type_invariant(self);
        }
        self.server
    }

    /// The query of this exchange: always a query for one address.
    pub fn query(&self) -> (query: &QueryMessage)
        ensures
            query@ == self@.query,
            is_address_query(query@),
    {
        proof {
            use_type_invariant(self);
        }
        &self.query
    }

    /// The query in wire format, ready to be sent.
    pub fn request(&self) -> (wire: Result<Vec<u8>, DnsError>)
        ensures
            match wire {
                Ok(bytes) => wire_outcome(self@.query) == Ok::<Seq<u8>, DnsError>(bytes@),
                Err(e) => wire_outcome(self@.query) == Err::<Seq<u8>, DnsError>(e),
            },
    {
        encode(&self.query)
    }

    /// Whether a datagram from `sender` is taken as the response: only if
    /// address and port are exactly the server's.
    pub fn accepts(&self, sender: Endpoint) -> (accepted: bool)
        ensures
            accepted == (sender == self@.server),
    {
        sender == self.server
    }

    /// Handles one datagram that arrived on the socket. One from any other
    /// sender than the server is ignored, whatever it holds; one from the
    /// server is read and ends the exchange.
    pub fn receive(&self, sender: Endpoint, datagram: &[u8]) -> (reception: Reception)
        ensures
            reception == if sender == self@.server {
                Reception::Accepted(response_outcome(datagram@))
            } else {
                Reception::Ignored
            },
    {
        if self.accepts(sender) {
            Reception::Accepted(interpret(datagram))
        } else {
            Reception::Ignored
        }
    }
}

} // verus!
