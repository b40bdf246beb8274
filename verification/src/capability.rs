//! Capability filtering: the proxy withholds from the client every
//! capability that it cannot honour across the interception boundary.

use crate::message::{
    code_view, tokens_view, Code, CodeView, ContinuationRequest, ContinuationRequestView, Data,
    DataView, Greeting, GreetingView, Status, StatusView,
};
use vstd::prelude::*;
use vstd::string::*;
use vstd::utf8::*;

verus! {

/// The capability every IMAP server has. It stands in for a list that
/// filtering would leave empty, and no policy can deny it.
pub const BASE_CAPABILITY: &'static str = "IMAP4rev1";

/// `STARTTLS` changes the transport under the proxy's feet.
pub const STARTTLS: &'static str = "STARTTLS";

/// `COMPRESS=DEFLATE` changes the framing of everything that follows.
pub const COMPRESS_DEFLATE: &'static str = "COMPRESS=DEFLATE";

/// The upper-case form of an ASCII letter; any other byte unchanged.
pub open spec fn fold_case(b: u8) -> u8 {
    if 0x61 <= b <= 0x7a {
        (b - 0x20) as u8
    } else {
        b
    }
}

/// Two capability tokens are the same when their bytes agree up to the case
/// of ASCII letters.
pub open spec fn same_token(a: Seq<char>, b: Seq<char>) -> bool {
    let x = encode_utf8(a);
    let y = encode_utf8(b);
    &&& x.len() == y.len()
    &&& forall|i: int| 0 <= i < x.len() ==> fold_case(#[trigger] x[i]) == fold_case(y[i])
}

/// Whether `token` is the same as one of `denied`.
pub open spec fn denied_by(denied: Seq<Seq<char>>, token: Seq<char>) -> bool {
    exists|i: int| 0 <= i < denied.len() && same_token(#[trigger] denied[i], token)
}

/// The tokens of `tokens` that `denied` lets through, in their order.
pub open spec fn kept(denied: Seq<Seq<char>>, tokens: Seq<Seq<char>>) -> Seq<Seq<char>> {
    tokens.filter(|token: Seq<char>| !denied_by(denied, token))
}

/// What a capability list becomes: the tokens let through, or the base
/// capability alone where none is.
pub open spec fn filtered(denied: Seq<Seq<char>>, tokens: Seq<Seq<char>>) -> Seq<Seq<char>> {
    if kept(denied, tokens).len() == 0 {
        seq![BASE_CAPABILITY@]
    } else {
        kept(denied, tokens)
    }
}

/// What a response code becomes: only a capability list changes.
pub open spec fn filtered_code<X>(denied: Seq<Seq<char>>, code: Option<CodeView<X>>) -> Option<
    CodeView<X>,
> {
    match code {
        Some(CodeView::Capability(tokens)) => Some(CodeView::Capability(filtered(denied, tokens))),
        _ => code,
    }
}

/// What a greeting becomes: only its code changes.
pub open spec fn filtered_greeting<X>(denied: Seq<Seq<char>>, greeting: GreetingView<X>) -> GreetingView<
    X,
> {
    GreetingView { code: filtered_code(denied, greeting.code), ..greeting }
}

/// What a status becomes: only its code changes.
pub open spec fn filtered_status<X>(denied: Seq<Seq<char>>, status: StatusView<X>) -> StatusView<X> {
    status.with_code(filtered_code(denied, status.code()))
}

/// What a continuation request becomes: only its code changes.
pub open spec fn filtered_continuation<X>(
    denied: Seq<Seq<char>>,
    request: ContinuationRequestView<X>,
) -> ContinuationRequestView<X> {
    match request {
        ContinuationRequestView::Basic { code, text } => ContinuationRequestView::Basic {
            code: filtered_code(denied, code),
            text,
        },
        ContinuationRequestView::Base64(_) => request,
    }
}

/// What a data response becomes: only a capability list changes.
pub open spec fn filtered_data<T>(denied: Seq<Seq<char>>, data: DataView<T>) -> DataView<T> {
    match data {
        DataView::Capability(tokens) => DataView::Capability(filtered(denied, tokens)),
        DataView::Other(_) => data,
    }
}

fn fold_case_exec(b: u8) -> (folded: u8)
    ensures
        folded == fold_case(b),
{
    if 0x61 <= b && b <= 0x7a {
        b - 0x20
    } else {
        b
    }
}

/// Whether two capability tokens are the same.
pub fn tokens_match(a: &str, b: &str) -> (same: bool)
    ensures
        same == same_token(a@, b@),
{
    let x = a.as_bytes();
    let y = b.as_bytes();
    if x.len() != y.len() {
        return false;
    }
    let mut i: usize = 0;
    while i < x.len()
        invariant
            i <= x.len(),
            x.len() == y.len(),
            x@ == encode_utf8(a@),
            y@ == encode_utf8(b@),
            forall|j: int| 0 <= j < i ==> fold_case(#[trigger] x@[j]) == fold_case(y@[j]),
        decreases x.len() - i,
    {
        if fold_case_exec(x[i]) != fold_case_exec(y[i]) {
            return false;
        }
        i += 1;
    }
    true
}

/// The capabilities that the proxy withholds from its clients.
pub struct CapabilityPolicy {
    deny: Vec<String>,
}

impl CapabilityPolicy {
    /// The denied tokens.
    pub closed spec fn denied(&self) -> Seq<Seq<char>> {
        tokens_view(self.deny@)
    }

    /// A policy never denies the base capability.
    pub open spec fn wf(&self) -> bool {
        !denied_by(self.denied(), BASE_CAPABILITY@)
    }

    #[verifier::type_invariant]
    spec fn holds(self) -> bool {
        self.wf()
    }

    /// Whether the policy withholds `token`.
    pub open spec fn denies(&self, token: Seq<char>) -> bool {
        denied_by(self.denied(), token)
    }

    /// A policy that withholds the tokens of `deny`; none if `deny` names
    /// the base capability.
    pub fn new(deny: Vec<String>) -> (policy: Option<CapabilityPolicy>)
        ensures
            policy is Some <==> !denied_by(tokens_view(deny@), BASE_CAPABILITY@),
            policy matches Some(p) ==> p.denied() == tokens_view(deny@) && p.wf(),
    {
        if list_denies(&deny, BASE_CAPABILITY) {
            None
        } else {
            Some(CapabilityPolicy { deny })
        }
    }

    /// The policy of a proxy that neither upgrades a connection to TLS nor
    /// compresses it: `STARTTLS` and `COMPRESS=DEFLATE` are withheld.
    pub fn standard() -> (policy: CapabilityPolicy)
        ensures
            policy.denied() == seq![STARTTLS@, COMPRESS_DEFLATE@],
            policy.wf(),
    {
        let mut deny: Vec<String> = Vec::new();
        deny.push(String::from_str(STARTTLS));
        deny.push(String::from_str(COMPRESS_DEFLATE));
        assert(tokens_view(deny@) =~= seq![STARTTLS@, COMPRESS_DEFLATE@]);
        proof {
            lemma_standard_keeps_base();
        }
        CapabilityPolicy { deny }
    }

    /// The denied tokens, as given to `new`.
    pub fn deny_list(&self) -> (deny: &Vec<String>)
        ensures
            tokens_view(deny@) == self.denied(),
    {
        &self.deny
    }

    /// Whether the policy withholds `token`.
    pub fn is_denied(&self, token: &str) -> (denied: bool)
        ensures
            denied == self.denies(token@),
    {
        list_denies(&self.deny, token)
    }

    /// Filters a capability list.
    pub fn filter_capabilities(&self, tokens: Vec<String>) -> (out: Vec<String>)
        ensures
            tokens_view(out@) == filtered(self.denied(), tokens_view(tokens@)),
    {
        let ghost denied = self.denied();
        let ghost all = tokens_view(tokens@);
        let ghost pred = |token: Seq<char>| !denied_by(denied, token);
        let mut out: Vec<String> = Vec::new();
        let mut i: usize = 0;
        assert(all.take(0).filter(pred) =~= Seq::<Seq<char>>::empty()) by {
            reveal(Seq::filter);
        }
        assert(tokens_view(out@) =~= Seq::<Seq<char>>::empty());
        while i < tokens.len()
            invariant
                i <= tokens.len(),
                denied == self.denied(),
                all == tokens_view(tokens@),
                pred == (|token: Seq<char>| !denied_by(denied, token)),
                tokens_view(out@) == all.take(i as int).filter(pred),
            decreases tokens.len() - i,
        {
            let ghost before = tokens_view(out@);
            let keep = !self.is_denied(tokens[i].as_str());
            proof {
                let next = all.take(i + 1);
                assert(next.drop_last() =~= all.take(i as int));
                assert(next.last() == tokens@[i as int]@);
                reveal(Seq::filter);
                assert(next.filter(pred) == if pred(next.last()) {
                    next.drop_last().filter(pred).push(next.last())
                } else {
                    next.drop_last().filter(pred)
                });
            }
            if keep {
                out.push(tokens[i].clone());
                assert(tokens_view(out@) =~= before.push(tokens@[i as int]@));
            }
            i += 1;
        }
        assert(all.take(i as int) =~= all);
        if out.len() == 0 {
            out.push(String::from_str(BASE_CAPABILITY));
            assert(tokens_view(out@) =~= seq![BASE_CAPABILITY@]);
        }
        out
    }

    /// Filters the capability list of a response code; any other code is
    /// handed back as it is.
    pub fn filter_capabilities_in_code<X>(&self, code: Option<Code<X>>) -> (out: Option<Code<X>>)
        ensures
            code_view(out) == filtered_code(self.denied(), code_view(code)),
    {
        match code {
            Some(Code::Capability(tokens)) => Some(
                Code::Capability(self.filter_capabilities(tokens)),
            ),
            other => other,
        }
    }

    /// Filters the capabilities that a greeting advertises.
    pub fn filter_capabilities_in_greeting<X>(&self, greeting: Greeting<X>) -> (out: Greeting<X>)
        ensures
            out@ == filtered_greeting(self.denied(), greeting@),
    {
        let Greeting { kind, code, text } = greeting;
        Greeting { kind, code: self.filter_capabilities_in_code(code), text }
    }

    /// Filters the capabilities that a status advertises.
    pub fn filter_capabilities_in_status<X>(&self, status: Status<X>) -> (out: Status<X>)
        ensures
            out@ == filtered_status(self.denied(), status@),
    {
        match status {
            Status::Untagged { kind, code, text } => Status::Untagged {
                kind,
                code: self.filter_capabilities_in_code(code),
                text,
            },
            Status::Tagged { tag, kind, code, text } => Status::Tagged {
                tag,
                kind,
                code: self.filter_capabilities_in_code(code),
                text,
            },
            Status::Bye { code, text } => Status::Bye {
                code: self.filter_capabilities_in_code(code),
                text,
            },
        }
    }

    /// Filters the capabilities that a continuation request advertises.
    pub fn filter_capabilities_in_continuation<X>(
        &self,
        request: ContinuationRequest<X>,
    ) -> (out: ContinuationRequest<X>)
        ensures
            out@ == filtered_continuation(self.denied(), request@),
    {
        match request {
            ContinuationRequest::Basic { code, text } => ContinuationRequest::Basic {
                code: self.filter_capabilities_in_code(code),
                text,
            },
            ContinuationRequest::Base64(data) => ContinuationRequest::Base64(data),
        }
    }

    /// Filters the capabilities that a data response advertises.
    pub fn filter_capabilities_in_data<T>(&self, data: Data<T>) -> (out: Data<T>)
        ensures
            out@ == filtered_data(self.denied(), data@),
    {
        match data {
            Data::Capability(tokens) => Data::Capability(self.filter_capabilities(tokens)),
            Data::Other(other) => Data::Other(other),
        }
    }
}

/// The capabilities that a response code advertises.
pub open spec fn advertised<X>(code: Option<CodeView<X>>) -> Seq<Seq<char>> {
    match code {
        Some(CodeView::Capability(tokens)) => tokens,
        _ => Seq::empty(),
    }
}

/// The capabilities that a continuation request advertises.
pub open spec fn advertised_in_continuation<X>(request: ContinuationRequestView<X>) -> Seq<
    Seq<char>,
> {
    match request {
        ContinuationRequestView::Basic { code, .. } => advertised(code),
        ContinuationRequestView::Base64(_) => Seq::empty(),
    }
}

/// The capabilities that a data response advertises.
pub open spec fn advertised_in_data<T>(data: DataView<T>) -> Seq<Seq<char>> {
    match data {
        DataView::Capability(tokens) => tokens,
        DataView::Other(_) => Seq::empty(),
    }
}

/// Whether none of `tokens` is withheld.
pub open spec fn all_allowed(denied: Seq<Seq<char>>, tokens: Seq<Seq<char>>) -> bool {
    forall|i: int| 0 <= i < tokens.len() ==> !denied_by(denied, #[trigger] tokens[i])
}

/// A filtered capability list holds no token that the policy denies,
/// whatever the list was.
pub proof fn lemma_filtered_list_withholds_denied(
    policy: CapabilityPolicy,
    tokens: Seq<Seq<char>>,
    token: Seq<char>,
)
    requires
        policy.wf(),
        filtered(policy.denied(), tokens).contains(token),
    ensures
        !policy.denies(token),
{
    let denied = policy.denied();
    let pred = |t: Seq<char>| !denied_by(denied, t);
    if kept(denied, tokens).len() != 0 {
        let i = choose|i: int| 0 <= i < kept(denied, tokens).len() && kept(denied, tokens)[i] == token;
        tokens.lemma_filter_pred(pred, i);
    }
}

/// Filtering is uniform: in a greeting, in a status, in a continuation
/// request and in a data response alike, what the proxy hands on advertises
/// no capability that the policy denies, whatever the upstream advertised.
pub proof fn lemma_filter_uniform<X, T>(
    policy: CapabilityPolicy,
    greeting: GreetingView<X>,
    status: StatusView<X>,
    request: ContinuationRequestView<X>,
    data: DataView<T>,
    token: Seq<char>,
)
    requires
        policy.wf(),
        policy.denies(token),
    ensures
        !advertised(filtered_greeting(policy.denied(), greeting).code).contains(token),
        !advertised(filtered_status(policy.denied(), status).code()).contains(token),
        !advertised_in_continuation(filtered_continuation(policy.denied(), request)).contains(
            token,
        ),
        !advertised_in_data(filtered_data(policy.denied(), data)).contains(token),
{
    let denied = policy.denied();
    if advertised(filtered_code(denied, greeting.code)).contains(token) {
        lemma_filtered_list_withholds_denied(policy, advertised(greeting.code), token);
    }
    assert(filtered_status(denied, status).code() == filtered_code(denied, status.code()));
    if advertised(filtered_code(denied, status.code())).contains(token) {
        lemma_filtered_list_withholds_denied(policy, advertised(status.code()), token);
    }
    if advertised_in_continuation(filtered_continuation(denied, request)).contains(token) {
        lemma_filtered_list_withholds_denied(policy, advertised_in_continuation(request), token);
    }
    if advertised_in_data(filtered_data(denied, data)).contains(token) {
        lemma_filtered_list_withholds_denied(policy, advertised_in_data(data), token);
    }
}

/// A capability list of which nothing is denied passes the filter as it is.
pub proof fn lemma_allowed_list_unchanged(denied: Seq<Seq<char>>, tokens: Seq<Seq<char>>)
    requires
        tokens.len() > 0,
        all_allowed(denied, tokens),
    ensures
        filtered(denied, tokens) == tokens,
{
    lemma_allowed_list_kept(denied, tokens);
}

proof fn lemma_allowed_list_kept(denied: Seq<Seq<char>>, tokens: Seq<Seq<char>>)
    requires
        all_allowed(denied, tokens),
    ensures
        kept(denied, tokens) == tokens,
    decreases tokens.len(),
{
    reveal(Seq::filter);
    if tokens.len() > 0 {
        let front = tokens.drop_last();
        assert forall|i: int| 0 <= i < front.len() implies !denied_by(denied, #[trigger] front[i]) by {
            assert(front[i] == tokens[i]);
        }
        lemma_allowed_list_kept(denied, front);
        assert(!denied_by(denied, tokens[tokens.len() - 1]));
        assert(front.push(tokens.last()) =~= tokens);
    } else {
        assert(kept(denied, tokens) =~= tokens);
    }
}

/// Whether the filter has nothing to change in a capability list: the list
/// is not empty and none of its tokens is denied.
pub open spec fn passes(denied: Seq<Seq<char>>, tokens: Seq<Seq<char>>) -> bool {
    tokens.len() > 0 && all_allowed(denied, tokens)
}

/// Whether the filter has nothing to change in a response code.
pub open spec fn code_passes<X>(denied: Seq<Seq<char>>, code: Option<CodeView<X>>) -> bool {
    match code {
        Some(CodeView::Capability(tokens)) => passes(denied, tokens),
        _ => true,
    }
}

/// Whether the filter has nothing to change in a continuation request.
pub open spec fn continuation_passes<X>(
    denied: Seq<Seq<char>>,
    request: ContinuationRequestView<X>,
) -> bool {
    match request {
        ContinuationRequestView::Basic { code, .. } => code_passes(denied, code),
        ContinuationRequestView::Base64(_) => true,
    }
}

/// Whether the filter has nothing to change in a data response.
pub open spec fn data_passes<T>(denied: Seq<Seq<char>>, data: DataView<T>) -> bool {
    match data {
        DataView::Capability(tokens) => passes(denied, tokens),
        DataView::Other(_) => true,
    }
}

/// A message that advertises no capability, or only capabilities that are
/// not denied, leaves the filter as it came, in each of the four places
/// where capabilities are advertised.
pub proof fn lemma_filter_transparent<X, T>(
    denied: Seq<Seq<char>>,
    greeting: GreetingView<X>,
    status: StatusView<X>,
    request: ContinuationRequestView<X>,
    data: DataView<T>,
)
    ensures
        code_passes(denied, greeting.code) ==> filtered_greeting(denied, greeting) == greeting,
        code_passes(denied, status.code()) ==> filtered_status(denied, status) == status,
        continuation_passes(denied, request) ==> filtered_continuation(denied, request)
            == request,
        data_passes(denied, data) ==> filtered_data(denied, data) == data,
{
    if passes(denied, advertised(greeting.code)) {
        lemma_allowed_list_unchanged(denied, advertised(greeting.code));
    }
    if passes(denied, advertised(status.code())) {
        lemma_allowed_list_unchanged(denied, advertised(status.code()));
    }
    if passes(denied, advertised_in_continuation(request)) {
        lemma_allowed_list_unchanged(denied, advertised_in_continuation(request));
    }
    if passes(denied, advertised_in_data(data)) {
        lemma_allowed_list_unchanged(denied, advertised_in_data(data));
    }
}

fn list_denies(deny: &Vec<String>, token: &str) -> (denied: bool)
    ensures
        denied == denied_by(tokens_view(deny@), token@),
{
    let mut i: usize = 0;
    while i < deny.len()
        invariant
            i <= deny.len(),
            forall|j: int| 0 <= j < i ==> !same_token(#[trigger] tokens_view(deny@)[j], token@),
        decreases deny.len() - i,
    {
        if tokens_match(deny[i].as_str(), token) {
            assert(same_token(tokens_view(deny@)[i as int], token@));
            return true;
        }
        i += 1;
    }
    false
}

/// `IMAP4rev1` is neither `STARTTLS` nor `COMPRESS=DEFLATE`.
proof fn lemma_standard_keeps_base()
    ensures
        !denied_by(seq![STARTTLS@, COMPRESS_DEFLATE@], BASE_CAPABILITY@),
{
    reveal_strlit("IMAP4rev1");
    reveal_strlit("STARTTLS");
    reveal_strlit("COMPRESS=DEFLATE");
    let base = BASE_CAPABILITY@;
    assert(base.len() == 9);
    lemma_ascii_bytes(base);
    lemma_ascii_bytes(STARTTLS@);
    lemma_ascii_bytes(COMPRESS_DEFLATE@);
    assert(STARTTLS@.len() == 8);
    assert(COMPRESS_DEFLATE@.len() == 16);
    let denied = seq![STARTTLS@, COMPRESS_DEFLATE@];
    assert forall|i: int| 0 <= i < denied.len() implies !same_token(
        #[trigger] denied[i],
        base,
    ) by {
        assert(encode_utf8(denied[i]).len() != encode_utf8(base).len());
    }
}

/// A string of ASCII characters has one byte for each character.
proof fn lemma_ascii_bytes(s: Seq<char>)
    requires
        is_ascii_chars(s),
    ensures
        encode_utf8(s).len() == s.len(),
{
    is_ascii_chars_encode_utf8(s);
}

} // verus!
