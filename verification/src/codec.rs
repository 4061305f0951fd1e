//! The message codec: requests as structured values and as wire text, and the
//! frames that come back.

use vstd::prelude::*;
use crate::error::ClientError;
use crate::json::{json_string_at, string_at};
use crate::text::{
    decimal, escaped, is_plain, lemma_escaped_plain, push_decimal, push_quoted, quoted,
    same_text,
};

verus! {

/// How much detail an `active_symbols` request asks for.
#[derive(Clone, Copy, Debug, PartialEq, Eq, Structural)]
pub enum Mode {
    Brief,
    Full,
}

impl Mode {
    /// The word that stands for the mode on the wire and on the command line.
    pub open spec fn spec_name(self) -> Seq<char> {
        match self {
            Mode::Brief => "brief"@,
            Mode::Full => "full"@,
        }
    }

    /// The word that stands for the mode on the wire and on the command line.
    pub fn name(&self) -> (word: &'static str)
        ensures
            word@ == self.spec_name(),
    {
        match self {
            Mode::Brief => "brief",
            Mode::Full => "full",
        }
    }
}

/// The mode that a word names.
pub open spec fn mode_of(word: Seq<char>) -> Option<Mode> {
    if word == "brief"@ {
        Some(Mode::Brief)
    } else if word == "full"@ {
        Some(Mode::Full)
    } else {
        None
    }
}

/// Reads a mode from the word that stands for it.
pub fn parse_mode(word: &str) -> (mode: Option<Mode>)
    ensures
        mode == mode_of(word@),
{
    if same_text(word, "brief") {
        Some(Mode::Brief)
    } else if same_text(word, "full") {
        Some(Mode::Full)
    } else {
        None
    }
}

/// What a request asks the server to do. The variant is the request's primary key.
#[derive(Clone, Debug, PartialEq, Eq)]
pub enum Operation {
    /// Liveness check.
    Ping,
    /// Price ticks of the named symbol.
    Ticks(String),
    /// Cancellation of the subscription with the given id.
    Forget(String),
    /// Metadata of the instruments on offer.
    ActiveSymbols(Mode),
    /// Status of the site.
    WebsiteStatus,
}

/// The mathematical value of an [`Operation`].
pub enum OperationView {
    Ping,
    Ticks(Seq<char>),
    Forget(Seq<char>),
    ActiveSymbols(Mode),
    WebsiteStatus,
}

impl View for Operation {
    type V = OperationView;

    open spec fn view(&self) -> OperationView {
        match self {
            Operation::Ping => OperationView::Ping,
            Operation::Ticks(symbol) => OperationView::Ticks(symbol@),
            Operation::Forget(id) => OperationView::Forget(id@),
            Operation::ActiveSymbols(mode) => OperationView::ActiveSymbols(*mode),
            Operation::WebsiteStatus => OperationView::WebsiteStatus,
        }
    }
}

impl OperationView {
    /// The argument, where there is one, lies in the operation's domain: a
    /// symbol and a subscription id are not empty.
    pub open spec fn well_formed(self) -> bool {
        match self {
            OperationView::Ticks(symbol) => symbol.len() > 0,
            OperationView::Forget(id) => id.len() > 0,
            _ => true,
        }
    }
}

impl Operation {
    /// Whether the argument lies in the operation's domain.
    pub fn is_well_formed(&self) -> (ok: bool)
        ensures
            ok == self@.well_formed(),
    {
        match self {
            Operation::Ticks(symbol) => !symbol.as_str().is_empty(),
            Operation::Forget(id) => !id.as_str().is_empty(),
            _ => true,
        }
    }
}

/// A request: one operation, and whether it creates a subscription.
#[derive(Clone, Debug, PartialEq, Eq)]
pub struct Request {
    pub operation: Operation,
    pub subscribe: bool,
}

/// The mathematical value of a [`Request`].
pub struct RequestView {
    pub operation: OperationView,
    pub subscribe: bool,
}

impl View for Request {
    type V = RequestView;

    open spec fn view(&self) -> RequestView {
        RequestView { operation: self.operation@, subscribe: self.subscribe }
    }
}

/// The value under one key of a message.
#[derive(Clone, Debug, PartialEq, Eq)]
pub enum Field {
    Number(u64),
    Text(String),
}

/// The mathematical value of a [`Field`].
pub enum FieldView {
    Number(nat),
    Text(Seq<char>),
}

impl View for Field {
    type V = FieldView;

    open spec fn view(&self) -> FieldView {
        match self {
            Field::Number(n) => FieldView::Number(*n as nat),
            Field::Text(s) => FieldView::Text(s@),
        }
    }
}

/// One key of a message with its value.
#[derive(Clone, Debug, PartialEq, Eq)]
pub struct Member {
    pub key: String,
    pub value: Field,
}

/// The mathematical value of a [`Member`].
pub struct MemberView {
    pub key: Seq<char>,
    pub value: FieldView,
}

impl View for Member {
    type V = MemberView;

    open spec fn view(&self) -> MemberView {
        MemberView { key: self.key@, value: self.value@ }
    }
}

/// A structured value: the top-level keys of one message, in the order in
/// which they are written.
#[derive(Clone, Debug, PartialEq, Eq)]
pub struct Message {
    pub members: Vec<Member>,
}

impl View for Message {
    type V = Seq<MemberView>;

    open spec fn view(&self) -> Seq<MemberView> {
        self.members@.map_values(|m: Member| m@)
    }
}

/// The member `key: n`.
pub open spec fn number_member(key: Seq<char>, n: nat) -> MemberView {
    MemberView { key, value: FieldView::Number(n) }
}

/// The member `key: "text"`.
pub open spec fn text_member(key: Seq<char>, text: Seq<char>) -> MemberView {
    MemberView { key, value: FieldView::Text(text) }
}

/// The members that an operation contributes to its request.
pub open spec fn operation_members(operation: OperationView) -> Seq<MemberView> {
    match operation {
        OperationView::Ping => seq![number_member("ping"@, 1)],
        OperationView::Ticks(symbol) => seq![text_member("ticks"@, symbol)],
        OperationView::Forget(id) => seq![text_member("forget"@, id)],
        OperationView::ActiveSymbols(mode) => seq![
            text_member("active_symbols"@, mode.spec_name()),
            text_member("product_type"@, "basic"@),
        ],
        OperationView::WebsiteStatus => seq![number_member("website_status"@, 1)],
    }
}

/// The structured value of a request: the operation's members, followed by
/// `subscribe: 1` where the request creates a subscription.
pub open spec fn message_of(request: RequestView) -> Seq<MemberView> {
    if request.subscribe {
        operation_members(request.operation).push(number_member("subscribe"@, 1))
    } else {
        operation_members(request.operation)
    }
}

/// The wire text of a value.
pub open spec fn field_text(value: FieldView) -> Seq<char> {
    match value {
        FieldView::Number(n) => decimal(n),
        FieldView::Text(s) => quoted(s),
    }
}

/// The wire text of a member: the quoted key, a colon, the value.
pub open spec fn member_text(member: MemberView) -> Seq<char> {
    quoted(member.key) + seq![':'] + field_text(member.value)
}

/// The wire texts of the members, separated by commas.
pub open spec fn members_text(members: Seq<MemberView>) -> Seq<char>
    decreases members.len(),
{
    if members.len() == 0 {
        Seq::empty()
    } else if members.len() == 1 {
        member_text(members[0])
    } else {
        members_text(members.drop_last()) + seq![','] + member_text(members.last())
    }
}

/// The wire text of a message: its members between braces, without white space.
pub open spec fn text_of(members: Seq<MemberView>) -> Seq<char> {
    seq!['{'] + members_text(members) + seq!['}']
}

/// The wire text of a request.
pub open spec fn wire_text(request: RequestView) -> Seq<char> {
    text_of(message_of(request))
}

/// The value under `key`: that of the first member with this key.
pub open spec fn lookup(members: Seq<MemberView>, key: Seq<char>) -> Option<FieldView>
    decreases members.len(),
{
    if members.len() == 0 {
        None
    } else if members[0].key == key {
        Some(members[0].value)
    } else {
        lookup(members.drop_first(), key)
    }
}

/// What the `subscribe` key says: absent, the request creates no
/// subscription; `1`, it creates one; any other value says nothing valid.
pub open spec fn subscribe_flag(members: Seq<MemberView>) -> Option<bool> {
    match lookup(members, "subscribe"@) {
        None => Some(false),
        Some(FieldView::Number(n)) => if n == 1 {
            Some(true)
        } else {
            None
        },
        Some(FieldView::Text(_)) => None,
    }
}

/// The text under `key`, where the value there is a text.
pub open spec fn text_under(members: Seq<MemberView>, key: Seq<char>) -> Option<Seq<char>> {
    match lookup(members, key) {
        Some(FieldView::Text(text)) => Some(text),
        _ => None,
    }
}

/// The operation that the primary key of a message identifies.
pub open spec fn operation_of(members: Seq<MemberView>) -> Option<OperationView> {
    if lookup(members, "ping"@) == Some(FieldView::Number(1)) {
        Some(OperationView::Ping)
    } else if text_under(members, "ticks"@) is Some {
        Some(OperationView::Ticks(text_under(members, "ticks"@)->0))
    } else if text_under(members, "forget"@) is Some {
        Some(OperationView::Forget(text_under(members, "forget"@)->0))
    } else if text_under(members, "active_symbols"@) is Some {
        let mode = mode_of(text_under(members, "active_symbols"@)->0);
        if mode is Some && text_under(members, "product_type"@) == Some("basic"@) {
            Some(OperationView::ActiveSymbols(mode->0))
        } else {
            None
        }
    } else if lookup(members, "website_status"@) == Some(FieldView::Number(1)) {
        Some(OperationView::WebsiteStatus)
    } else {
        None
    }
}

/// The request that a structured value stands for. Members are found by
/// key, wherever they stand. The value is a request only if it has as many
/// members as that request is written with: a further key is not accepted.
pub open spec fn request_of(members: Seq<MemberView>) -> Option<RequestView> {
    match (operation_of(members), subscribe_flag(members)) {
        (Some(operation), Some(subscribe)) => {
            let request = RequestView { operation, subscribe };
            if operation.well_formed() && members.len() == message_of(request).len() {
                Some(request)
            } else {
                None
            }
        },
        _ => None,
    }
}

impl Message {
    /// The value under `key`: that of the first member with this key.
    pub fn get(&self, key: &str) -> (found: Option<&Field>)
        ensures
            match found {
                Some(value) => lookup(self@, key@) == Some(value@),
                None => lookup(self@, key@) is None,
            },
    {
        let mut i: usize = 0;
        assert(self@.skip(0) =~= self@);
        while i < self.members.len()
            invariant
                i <= self.members.len(),
                lookup(self@, key@) == lookup(self@.skip(i as int), key@),
            decreases self.members.len() - i,
        {
            let ghost rest = self@.skip(i as int);
            assert(rest[0] == self.members[i as int]@);
            assert(rest.drop_first() =~= self@.skip(i + 1));
            if same_text(self.members[i].key.as_str(), key) {
                return Some(&self.members[i].value);
            }
            i += 1;
        }
        None
    }

    /// Whether the value under `key` is the number `n`.
    fn has_number(&self, key: &str, n: u64) -> (yes: bool)
        ensures
            yes == (lookup(self@, key@) == Some(FieldView::Number(n as nat))),
    {
        match self.get(key) {
            Some(Field::Number(found)) => *found == n,
            _ => false,
        }
    }

    /// The text under `key`, where the value there is a text.
    fn text_under(&self, key: &str) -> (found: Option<&String>)
        ensures
            match found {
                Some(text) => text_under(self@, key@) == Some(text@),
                None => text_under(self@, key@) is None,
            },
    {
        match self.get(key) {
            Some(Field::Text(text)) => Some(text),
            _ => None,
        }
    }

    fn subscribe_flag(&self) -> (flag: Option<bool>)
        ensures
            flag == subscribe_flag(self@),
    {
        match self.get("subscribe") {
            None => Some(false),
            Some(Field::Number(n)) => if *n == 1 {
                Some(true)
            } else {
                None
            },
            Some(Field::Text(_)) => None,
        }
    }

    fn operation(&self) -> (operation: Option<Operation>)
        ensures
            match operation {
                Some(operation) => operation_of(self@) == Some(operation@),
                None => operation_of(self@) is None,
            },
    {
        if self.has_number("ping", 1) {
            return Some(Operation::Ping);
        }
        if let Some(symbol) = self.text_under("ticks") {
            return Some(Operation::Ticks(symbol.clone()));
        }
        if let Some(id) = self.text_under("forget") {
            return Some(Operation::Forget(id.clone()));
        }
        if let Some(word) = self.text_under("active_symbols") {
            let basic = match self.text_under("product_type") {
                Some(product) => same_text(product.as_str(), "basic"),
                None => false,
            };
            return match parse_mode(word.as_str()) {
                Some(mode) => if basic {
                    Some(Operation::ActiveSymbols(mode))
                } else {
                    None
                },
                None => None,
            };
        }
        if self.has_number("website_status", 1) {
            return Some(Operation::WebsiteStatus);
        }
        None
    }

    /// Writes the message as wire text. Every member is written, in order.
    pub fn to_text(&self) -> (text: String)
        ensures
            text@ == text_of(self@),
    {
        let mut out = String::new();
        out.push('{');
        let mut i: usize = 0;
        while i < self.members.len()
            invariant
                i <= self.members.len(),
                out@ == seq!['{'] + members_text(self@.take(i as int)),
            decreases self.members.len() - i,
        {
            let ghost before = out@;
            let ghost done = self@.take(i as int);
            let ghost next = self@.take(i + 1);
            assert(next.drop_last() =~= done);
            assert(next.last() == self.members[i as int]@);
            if i > 0 {
                out.push(',');
            }
            let member = &self.members[i];
            push_quoted(&mut out, member.key.as_str());
            out.push(':');
            match &member.value {
                Field::Number(n) => push_decimal(&mut out, *n),
                Field::Text(s) => push_quoted(&mut out, s.as_str()),
            }
            assert(out@ =~= seq!['{'] + members_text(next)) by {
                if i == 0 {
                    assert(done.len() == 0);
                    assert(next[0] == next.last());
                }
            }
            i += 1;
        }
        assert(self@.take(self.members.len() as int) =~= self@);
        out.push('}');
        out
    }
}

fn number_field(key: &str, n: u64) -> (member: Member)
    ensures
        member@ == number_member(key@, n as nat),
{
    Member { key: key.to_owned(), value: Field::Number(n) }
}

fn text_field(key: &str, text: &str) -> (member: Member)
    ensures
        member@ == text_member(key@, text@),
{
    Member { key: key.to_owned(), value: Field::Text(text.to_owned()) }
}

impl Request {
    /// The request as a structured value.
    pub fn to_message(&self) -> (message: Message)
        ensures
            message@ == message_of(self@),
    {
        let mut members: Vec<Member> = Vec::new();
        match &self.operation {
            Operation::Ping => {
                members.push(number_field("ping", 1));
            },
            Operation::Ticks(symbol) => {
                members.push(text_field("ticks", symbol.as_str()));
            },
            Operation::Forget(id) => {
                members.push(text_field("forget", id.as_str()));
            },
            Operation::ActiveSymbols(mode) => {
                members.push(text_field("active_symbols", mode.name()));
                members.push(text_field("product_type", "basic"));
            },
            Operation::WebsiteStatus => {
                members.push(number_field("website_status", 1));
            },
        }
        if self.subscribe {
            members.push(number_field("subscribe", 1));
        }
        let message = Message { members };
        assert(message@ =~= message_of(self@));
        message
    }
}

impl Request {
    /// The number of members that the request is written with.
    fn member_count(&self) -> (count: usize)
        ensures
            count == message_of(self@).len(),
    {
        let base: usize = match &self.operation {
            Operation::ActiveSymbols(_) => 2,
            _ => 1,
        };
        if self.subscribe {
            base + 1
        } else {
            base
        }
    }

    /// Reads a request from a structured value, by key and not by position.
    /// It succeeds exactly on the values that stand for a request whose
    /// argument lies in its domain.
    pub fn from_message(message: &Message) -> (request: Option<Request>)
        ensures
            match request {
                Some(request) => request_of(message@) == Some(request@),
                None => request_of(message@) is None,
            },
    {
        let operation = match message.operation() {
            Some(operation) => operation,
            None => {
                return None;
            },
        };
        let subscribe = match message.subscribe_flag() {
            Some(subscribe) => subscribe,
            None => {
                return None;
            },
        };
        let request = Request { operation, subscribe };
        if request.operation.is_well_formed() && message.members.len() == request.member_count() {
            Some(request)
        } else {
            None
        }
    }
}

/// Encodes a request as wire text. The subscribe flag is a member of the
/// structured value before any text is written.
pub fn encode(request: &Request) -> (text: String)
    ensures
        text@ == wire_text(request@),
{
    request.to_message().to_text()
}

/// A decoded frame: the text as it came, and the subscription that it names.
#[derive(Clone, Debug, PartialEq, Eq)]
pub struct Response {
    /// The frame's text, a well-formed JSON document.
    pub text: String,
    /// The string at `subscription.id`, where the frame has one.
    pub subscription_id: Option<String>,
}

/// The mathematical value of a [`Response`].
pub struct ResponseView {
    pub text: Seq<char>,
    pub subscription_id: Option<Seq<char>>,
}

impl View for Response {
    type V = ResponseView;

    open spec fn view(&self) -> ResponseView {
        ResponseView {
            text: self.text@,
            subscription_id: match self.subscription_id {
                Some(id) => Some(id@),
                None => None,
            },
        }
    }
}

/// What a frame decodes to: `None` where it is not well-formed structured
/// data, else the response with the subscription id found in it.
pub open spec fn decoded(text: Seq<char>) -> Option<ResponseView> {
    match json_string_at(text, "/subscription/id"@) {
        Some(subscription_id) => Some(ResponseView { text, subscription_id }),
        None => None,
    }
}

/// Decodes one frame. It fails with `DecodeError`, and with no other error,
/// exactly when the text is not well-formed structured data.
pub fn decode(text: &str) -> (result: Result<Response, ClientError>)
    ensures
        match result {
            Ok(response) => decoded(text@) == Some(response@),
            Err(error) => error == ClientError::DecodeError && decoded(text@) is None,
        },
{
    match string_at(text, "/subscription/id") {
        Ok(subscription_id) => Ok(Response { text: text.to_owned(), subscription_id }),
        Err(_) => Err(ClientError::DecodeError),
    }
}

/// The keys that requests are written with are pairwise different.
pub proof fn lemma_keys_differ()
    ensures
        "ping"@ != "ticks"@,
        "ping"@ != "forget"@,
        "ping"@ != "active_symbols"@,
        "ping"@ != "product_type"@,
        "ping"@ != "website_status"@,
        "ping"@ != "subscribe"@,
        "ticks"@ != "forget"@,
        "ticks"@ != "active_symbols"@,
        "ticks"@ != "product_type"@,
        "ticks"@ != "website_status"@,
        "ticks"@ != "subscribe"@,
        "forget"@ != "active_symbols"@,
        "forget"@ != "product_type"@,
        "forget"@ != "website_status"@,
        "forget"@ != "subscribe"@,
        "active_symbols"@ != "product_type"@,
        "active_symbols"@ != "website_status"@,
        "active_symbols"@ != "subscribe"@,
        "product_type"@ != "website_status"@,
        "product_type"@ != "subscribe"@,
        "website_status"@ != "subscribe"@,
{
    reveal_strlit("ping");
    reveal_strlit("ticks");
    reveal_strlit("forget");
    reveal_strlit("active_symbols");
    reveal_strlit("product_type");
    reveal_strlit("website_status");
    reveal_strlit("subscribe");
    assert("ping"@.len() == 4);
    assert("ticks"@.len() == 5);
    assert("forget"@.len() == 6);
    assert("active_symbols"@.len() == 14);
    assert("product_type"@.len() == 12);
    assert("website_status"@.len() == 14);
    assert("subscribe"@.len() == 9);
    assert("active_symbols"@[0] != "website_status"@[0]);
}

/// The word of a mode names that mode.
pub proof fn lemma_mode_names(mode: Mode)
    ensures
        mode_of(mode.spec_name()) == Some(mode),
{
    reveal_strlit("brief");
    reveal_strlit("full");
    assert("brief"@.len() != "full"@.len());
}

/// In a message, the member with a key that no other member has is the one
/// that `lookup` finds.
pub proof fn lemma_lookup_single(members: Seq<MemberView>, key: Seq<char>, at: int)
    requires
        0 <= at < members.len(),
        members[at].key == key,
        forall|j: int| 0 <= j < members.len() && j != at ==> (#[trigger] members[j]).key != key,
    ensures
        lookup(members, key) == Some(members[at].value),
    decreases members.len(),
{
    if at > 0 {
        let rest = members.drop_first();
        assert(members[0].key != key);
        assert forall|j: int| 0 <= j < rest.len() && j != at - 1 implies (#[trigger] rest[j]).key
            != key by {
            assert(rest[j] == members[j + 1]);
        }
        lemma_lookup_single(rest, key, at - 1);
    }
}

/// A key that no member has is not found.
pub proof fn lemma_lookup_absent(members: Seq<MemberView>, key: Seq<char>)
    requires
        forall|j: int| 0 <= j < members.len() ==> (#[trigger] members[j]).key != key,
    ensures
        lookup(members, key) is None,
    decreases members.len(),
{
    if members.len() > 0 {
        let rest = members.drop_first();
        assert(members[0].key != key);
        assert forall|j: int| 0 <= j < rest.len() implies (#[trigger] rest[j]).key != key by {
            assert(rest[j] == members[j + 1]);
        }
        lemma_lookup_absent(rest, key);
    }
}

/// `held` holds the members of `written`, each once, in any order.
pub open spec fn rearranges(held: Seq<MemberView>, written: Seq<MemberView>) -> bool {
    &&& held.len() == written.len()
    &&& forall|i: int|
        0 <= i < written.len() ==> exists|j: int|
            0 <= j < held.len() && #[trigger] held[j] == #[trigger] written[i]
}

/// Decoding inverts encoding on structured values: the value that a request
/// is written as is read back as that request.
pub proof fn request_survives_the_round_trip(request: RequestView)
    requires
        request.operation.well_formed(),
    ensures
        request_of(message_of(request)) == Some(request),
{
    let written = message_of(request);
    lemma_reads_back(request, written, Seq::new(written.len(), |i: int| i));
}

/// Members are read by key, not by position: a value that holds the members
/// of a request's message in another order is read as the same request.
pub proof fn member_order_is_irrelevant(request: RequestView, held: Seq<MemberView>)
    requires
        request.operation.well_formed(),
        rearranges(held, message_of(request)),
    ensures
        request_of(held) == Some(request),
{
    let written = message_of(request);
    let places = Seq::new(
        written.len(),
        |i: int| choose|j: int| 0 <= j < held.len() && held[j] == written[i],
    );
    assert forall|i: int| 0 <= i < written.len() implies 0 <= #[trigger] places[i] < held.len()
        && held[places[i]] == written[i] by {
        assert(exists|j: int| 0 <= j < held.len() && #[trigger] held[j] == #[trigger] written[i]);
    }
    lemma_reads_back(request, held, places);
}

/// Whether one of `places` is `place`.
spec fn taken(places: Seq<int>, place: int) -> bool {
    exists|i: int| 0 <= i < places.len() && #[trigger] places[i] == place
}

/// A value that holds each member of a request's message at the place that
/// `places` gives, and nothing else, is read as that request.
proof fn lemma_reads_back(request: RequestView, held: Seq<MemberView>, places: Seq<int>)
    requires
        request.operation.well_formed(),
        held.len() == message_of(request).len(),
        places.len() == held.len(),
        forall|i: int|
            0 <= i < places.len() ==> 0 <= #[trigger] places[i] < held.len() && held[places[i]]
                == message_of(request)[i],
    ensures
        request_of(held) == Some(request),
{
    let written = message_of(request);
    lemma_keys_differ();
    lemma_mode_names(Mode::Brief);
    lemma_mode_names(Mode::Full);
    let n = written.len();
    assert(1 <= n <= 3);
    // The members of a request have different keys, so they stand at
    // different places, and with as many places as members every place is
    // taken by one of them.
    assert forall|i: int, k: int| 0 <= i < n && 0 <= k < n && i != k implies written[i].key
        != written[k].key by {}
    assert forall|i: int, k: int| 0 <= i < n && 0 <= k < n && i != k implies places[i]
        != places[k] by {
        assert(held[places[i]] == written[i]);
        assert(held[places[k]] == written[k]);
    }
    assert forall|j: int| 0 <= j < n implies #[trigger] taken(places, j) by {
        assert(0 <= places[0] < n);
        if n >= 2 {
            assert(0 <= places[1] < n);
            assert(places[0] != places[1]);
        }
        if n >= 3 {
            assert(0 <= places[2] < n);
            assert(places[0] != places[2]);
            assert(places[1] != places[2]);
        }
    }
    assert forall|i: int| 0 <= i < n implies lookup(held, #[trigger] written[i].key) == Some(
        written[i].value,
    ) by {
        assert(held[places[i]] == written[i]);
        assert forall|j: int| 0 <= j < held.len() && j != places[i] implies (#[trigger] held[j]).key
            != written[i].key by {
            assert(taken(places, j));
            let k = choose|k: int| 0 <= k < n && #[trigger] places[k] == j;
            assert(held[places[k]] == written[k]);
            assert(k != i);
        }
        lemma_lookup_single(held, written[i].key, places[i]);
    }
    assert forall|key: Seq<char>|
        (forall|i: int| 0 <= i < n ==> (#[trigger] written[i]).key != key) implies lookup(
        held,
        key,
    ) is None by {
        assert forall|j: int| 0 <= j < held.len() implies (#[trigger] held[j]).key != key by {
            assert(taken(places, j));
            let k = choose|k: int| 0 <= k < n && #[trigger] places[k] == j;
            assert(held[places[k]] == written[k]);
        }
        lemma_lookup_absent(held, key);
    }
    let base = operation_members(request.operation);
    assert(written[0] == base[0]);
    assert(lookup(held, written[0].key) == Some(written[0].value));
    if request.subscribe {
        assert(written[n - 1] == number_member("subscribe"@, 1));
        assert(lookup(held, written[n - 1].key) == Some(written[n - 1].value));
    } else {
        assert(lookup(held, "subscribe"@) is None);
    }
    match request.operation {
        OperationView::Ping => {},
        OperationView::Ticks(symbol) => {
            assert(lookup(held, "ping"@) is None);
        },
        OperationView::Forget(id) => {
            assert(lookup(held, "ping"@) is None);
            assert(lookup(held, "ticks"@) is None);
        },
        OperationView::ActiveSymbols(mode) => {
            assert(written[1] == base[1]);
            assert(lookup(held, written[1].key) == Some(written[1].value));
            assert(lookup(held, "ping"@) is None);
            assert(lookup(held, "ticks"@) is None);
            assert(lookup(held, "forget"@) is None);
        },
        OperationView::WebsiteStatus => {
            assert(lookup(held, "ping"@) is None);
            assert(lookup(held, "ticks"@) is None);
            assert(lookup(held, "forget"@) is None);
            assert(lookup(held, "active_symbols"@) is None);
        },
    }
}

/// The key that identifies an operation.
pub open spec fn primary_key(operation: OperationView) -> Seq<char> {
    match operation {
        OperationView::Ping => "ping"@,
        OperationView::Ticks(_) => "ticks"@,
        OperationView::Forget(_) => "forget"@,
        OperationView::ActiveSymbols(_) => "active_symbols"@,
        OperationView::WebsiteStatus => "website_status"@,
    }
}

/// Whether `key` is the key of one of the operations.
pub open spec fn is_primary_key(key: Seq<char>) -> bool {
    key == "ping"@ || key == "ticks"@ || key == "forget"@ || key == "active_symbols"@ || key
        == "website_status"@
}

/// A request holds exactly one primary key, that of its operation, and the
/// `subscribe` key exactly when it creates a subscription.
pub proof fn request_holds_one_primary_key(request: RequestView, key: Seq<char>)
    requires
        is_primary_key(key),
    ensures
        lookup(message_of(request), key) is Some <==> key == primary_key(request.operation),
        lookup(message_of(request), "subscribe"@) is Some <==> request.subscribe,
        request.subscribe ==> lookup(message_of(request), "subscribe"@) == Some(
            FieldView::Number(1),
        ),
{
    let members = message_of(request);
    lemma_keys_differ();
    lemma_lookup_single(members, primary_key(request.operation), 0);
    if request.subscribe {
        lemma_lookup_single(members, "subscribe"@, members.len() - 1);
    } else {
        lemma_lookup_absent(members, "subscribe"@);
    }
    if key != primary_key(request.operation) {
        lemma_lookup_absent(members, key);
    }
}

/// `"key":"value"` as it stands on the wire, for a key and a value of plain
/// characters.
pub open spec fn pair_on_wire(key: Seq<char>, value: Seq<char>) -> Seq<char> {
    seq!['"'] + key + seq!['"', ':', '"'] + value + seq!['"']
}

/// Whether `part` stands somewhere in `text`.
pub open spec fn occurs_in(part: Seq<char>, text: Seq<char>) -> bool {
    exists|before: Seq<char>, after: Seq<char>| text == #[trigger] (before + part + after)
}

/// The keys and words that requests are written with hold plain characters
/// only.
pub proof fn lemma_words_are_plain()
    ensures
        is_plain("ping"@),
        is_plain("ticks"@),
        is_plain("forget"@),
        is_plain("active_symbols"@),
        is_plain("product_type"@),
        is_plain("website_status"@),
        is_plain("subscribe"@),
        is_plain("basic"@),
        is_plain("brief"@),
        is_plain("full"@),
{
    reveal_strlit("ping");
    reveal_strlit("ticks");
    reveal_strlit("forget");
    reveal_strlit("active_symbols");
    reveal_strlit("product_type");
    reveal_strlit("website_status");
    reveal_strlit("subscribe");
    reveal_strlit("basic");
    reveal_strlit("brief");
    reveal_strlit("full");
}

/// An `active_symbols` request, whichever its mode, is written with both
/// `"active_symbols":"<mode>"` and `"product_type":"basic"`, and with nothing
/// else between the braces but the comma.
pub proof fn active_symbols_is_written_with_both_keys(mode: Mode)
    ensures
        wire_text(RequestView { operation: OperationView::ActiveSymbols(mode), subscribe: false })
            == seq!['{'] + pair_on_wire("active_symbols"@, mode.spec_name()) + seq![',']
            + pair_on_wire("product_type"@, "basic"@) + seq!['}'],
        occurs_in(
            pair_on_wire("active_symbols"@, mode.spec_name()),
            wire_text(
                RequestView { operation: OperationView::ActiveSymbols(mode), subscribe: false },
            ),
        ),
        occurs_in(
            pair_on_wire("product_type"@, "basic"@),
            wire_text(
                RequestView { operation: OperationView::ActiveSymbols(mode), subscribe: false },
            ),
        ),
{
    let request = RequestView { operation: OperationView::ActiveSymbols(mode), subscribe: false };
    let first = pair_on_wire("active_symbols"@, mode.spec_name());
    let second = pair_on_wire("product_type"@, "basic"@);
    let members = message_of(request);
    lemma_words_are_plain();
    lemma_escaped_plain("active_symbols"@);
    lemma_escaped_plain("product_type"@);
    lemma_escaped_plain("basic"@);
    lemma_escaped_plain(mode.spec_name());
    assert(member_text(members[0]) =~= first);
    assert(member_text(members[1]) =~= second);
    assert(members.drop_last() =~= seq![members[0]]);
    assert(members_text(members.drop_last()) == member_text(members[0]));
    assert(members_text(members) == first + seq![','] + second);
    let text = wire_text(request);
    assert(text =~= seq!['{'] + first + seq![','] + second + seq!['}']);
    assert(text =~= seq!['{'] + first + (seq![','] + second + seq!['}']));
    assert(text =~= (seq!['{'] + first + seq![',']) + second + seq!['}']);
}

/// A subscribing `ticks` request for a symbol holds that symbol under
/// `ticks` and the subscribe flag, and the key of no other operation.
pub proof fn ticks_subscription_carries_its_symbol(symbol: Seq<char>)
    requires
        symbol.len() > 0,
    ensures
        ({
            let request = RequestView { operation: OperationView::Ticks(symbol), subscribe: true };
            let members = message_of(request);
            &&& members == seq![text_member("ticks"@, symbol), number_member("subscribe"@, 1)]
            &&& lookup(members, "ticks"@) == Some(FieldView::Text(symbol))
            &&& lookup(members, "subscribe"@) == Some(FieldView::Number(1))
            &&& lookup(members, "ping"@) is None
            &&& lookup(members, "forget"@) is None
            &&& lookup(members, "active_symbols"@) is None
            &&& lookup(members, "website_status"@) is None
            &&& wire_text(request) == seq!['{'] + pair_on_wire("ticks"@, escaped(symbol))
                + seq![',', '"'] + "subscribe"@ + seq!['"', ':', '1', '}']
        }),
{
    let request = RequestView { operation: OperationView::Ticks(symbol), subscribe: true };
    let members = message_of(request);
    lemma_keys_differ();
    lemma_words_are_plain();
    lemma_escaped_plain("ticks"@);
    lemma_escaped_plain("subscribe"@);
    assert(members =~= seq![text_member("ticks"@, symbol), number_member("subscribe"@, 1)]);
    lemma_lookup_single(members, "ticks"@, 0);
    lemma_lookup_single(members, "subscribe"@, 1);
    lemma_lookup_absent(members, "ping"@);
    lemma_lookup_absent(members, "forget"@);
    lemma_lookup_absent(members, "active_symbols"@);
    lemma_lookup_absent(members, "website_status"@);
    assert(decimal(1) =~= seq!['1']);
    assert(members.drop_last() =~= seq![members[0]]);
    assert(members_text(members.drop_last()) == member_text(members[0]));
    assert(member_text(members[0]) =~= pair_on_wire("ticks"@, escaped(symbol)));
    assert(member_text(members[1]) =~= seq!['"'] + "subscribe"@ + seq!['"', ':', '1']);
    assert(wire_text(request) =~= seq!['{'] + pair_on_wire(
        "ticks"@,
        escaped(symbol),
    ) + seq![',', '"'] + "subscribe"@ + seq!['"', ':', '1', '}']);
}

} // verus!
