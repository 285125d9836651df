//! The browser login: the page that the user is sent to, and the code that comes back.

use crate::requests::{CLIENT_ID, REDIRECT_URI};
use crate::text::percent_encode;
use crate::{pkce, text};
use vstd::prelude::*;
use vstd::string::*;

verus! {

/// The page that asks the user to let this client in.
pub open spec fn auth_url_view(code_challenge: Seq<char>) -> Seq<char> {
    "https://accounts.spotify.com/authorize?client_id="@ + CLIENT_ID@
        + "&response_type=code&redirect_uri="@ + text::percent_encoded(
        REDIRECT_URI.spec_bytes(),
    )
        + "&scope=user-read-recently-played%20playlist-modify-public%20playlist-read-private&code_challenge="@
        + code_challenge + "&code_challenge_method=S256"@
}

/// The value of the first parameter of that name.
pub open spec fn param_value(
    params: Seq<(Seq<char>, Seq<char>)>,
    name: Seq<char>,
) -> Option<Seq<char>>
    decreases params.len(),
{
    if params.len() == 0 {
        None
    } else if params.first().0 == name {
        Some(params.first().1)
    } else {
        param_value(params.drop_first(), name)
    }
}

/// The code that is kept once a callback has come: its own, or else the one before.
pub open spec fn kept_code(
    code: Option<Seq<char>>,
    params: Seq<(Seq<char>, Seq<char>)>,
) -> Option<Seq<char>> {
    match param_value(params, "code"@) {
        Some(new_code) => Some(new_code),
        None => code,
    }
}

/// The code that is kept after a number of callbacks.
pub open spec fn kept_after(callbacks: Seq<Seq<(Seq<char>, Seq<char>)>>) -> Option<Seq<char>>
    decreases callbacks.len(),
{
    if callbacks.len() == 0 {
        None
    } else {
        kept_code(kept_after(callbacks.drop_last()), callbacks.last())
    }
}

/// The page that asks the user to let this client in.
pub fn auth_url(code_challenge: &str) -> (url: String)
    ensures
        url@ == auth_url_view(code_challenge@),
{
    let mut url = "https://accounts.spotify.com/authorize?client_id=".to_string();
    url.append(CLIENT_ID);
    url.append("&response_type=code&redirect_uri=");
    url.append(percent_encode(REDIRECT_URI).as_str());
    url.append(
        "&scope=user-read-recently-played%20playlist-modify-public%20playlist-read-private&code_challenge=",
    );
    url.append(code_challenge);
    url.append("&code_challenge_method=S256");
    url
}

/// Looks a parameter up by its name.
pub fn find_param(params: &Vec<(String, String)>, name: &str) -> (value: Option<String>)
    ensures
        value.deep_view() == param_value(params.deep_view(), name@),
{
    let wanted = name.to_string();
    let ghost all = params.deep_view();
    assert(all.skip(0) =~= all);
    let mut index: usize = 0;
    while index < params.len()
        invariant
            index <= params.len(),
            all == params.deep_view(),
            wanted@ == name@,
            param_value(all, name@) == param_value(all.skip(index as int), name@),
        decreases params.len() - index,
    {
        assert(all.skip(index as int).first() == all[index as int]);
        assert(all.skip(index as int).drop_first() =~= all.skip(index + 1));
        if params[index].0 == wanted {
            return Some(params[index].1.clone());
        }
        index = index + 1;
    }
    None
}

/// The authorization code, from the callback that brings it to the login that waits for it.
pub struct CodeStore {
    code: Option<String>,
}

impl DeepView for CodeStore {
    type V = Option<Seq<char>>;

    closed spec fn deep_view(&self) -> Option<Seq<char>> {
        self.code.deep_view()
    }
}

impl CodeStore {
    /// No code has come yet.
    pub fn new() -> (store: CodeStore)
        ensures
            store.deep_view() == None::<Seq<char>>,
    {
        CodeStore { code: None }
    }

    /// Takes the query parameters of a callback and gives the page to show. A code replaces
    /// the one that was there; without a code nothing changes.
    pub fn receive(&mut self, params: &Vec<(String, String)>) -> (page: &'static str)
        ensures
            final(self).deep_view() == kept_code(old(self).deep_view(), params.deep_view()),
            page@ == (if param_value(params.deep_view(), "code"@) is Some {
                "Login successful. You can close this window."@
            } else {
                "Missing code"@
            }),
    {
        match find_param(params, "code") {
            Some(code) => {
                self.code = Some(code);
                "Login successful. You can close this window."
            },
            None => "Missing code",
        }
    }

    /// The line that tells of the code, once it has come.
    pub fn poll(&self) -> (line: Option<String>)
        ensures
            line.deep_view() == (match self.deep_view() {
                Some(code) => Some("Got authorization code: "@ + code),
                None => None,
            }),
    {
        match &self.code {
            Some(code) => {
                let mut line = "Got authorization code: ".to_string();
                line.append(code.as_str());
                Some(line)
            },
            None => None,
        }
    }

    /// Hands the code over and forgets it.
    pub fn take(&mut self) -> (code: Option<String>)
        ensures
            code.deep_view() == old(self).deep_view(),
            final(self).deep_view() == None::<Seq<char>>,
    {
        self.code.take()
    }
}

/// Where no name occurs twice among the parameters, their order does not matter: a parameter
/// has a value if and only if that pair is among them.
pub proof fn param_value_ignores_order(
    params: Seq<(Seq<char>, Seq<char>)>,
    name: Seq<char>,
    value: Seq<char>,
)
    requires
        forall|i: int, j: int|
            0 <= i < j < params.len() ==> (#[trigger] params[i]).0 != (#[trigger] params[j]).0,
    ensures
        param_value(params, name) == Some(value) <==> params.contains((name, value)),
    decreases params.len(),
{
    if params.len() > 0 {
        let rest = params.drop_first();
        param_value_ignores_order(rest, name, value);
        if params.contains((name, value)) {
            let i = choose|i: int| 0 <= i < params.len() && params[i] == (name, value);
            if i > 0 {
                assert(rest[i - 1] == (name, value));
            }
        }
        if rest.contains((name, value)) {
            let i = choose|i: int| 0 <= i < rest.len() && rest[i] == (name, value);
            assert(params[i + 1] == (name, value));
        }
        if params.first() == (name, value) {
            assert(params[0] == (name, value));
        }
    }
}

/// The code that is kept is that of the last callback that brought one, however many came
/// without one afterwards.
pub proof fn last_code_is_kept(callbacks: Seq<Seq<(Seq<char>, Seq<char>)>>, last: int)
    requires
        0 <= last < callbacks.len(),
        param_value(callbacks[last], "code"@) is Some,
        forall|i: int|
            last < i < callbacks.len() ==> param_value(#[trigger] callbacks[i], "code"@) is None,
    ensures
        kept_after(callbacks) == param_value(callbacks[last], "code"@),
    decreases callbacks.len(),
{
    if last < callbacks.len() - 1 {
        assert(param_value(callbacks[callbacks.len() - 1], "code"@) is None);
        last_code_is_kept(callbacks.drop_last(), last);
    }
}

/// Without a callback that brings a code, none is kept.
pub proof fn no_code_is_made_up(callbacks: Seq<Seq<(Seq<char>, Seq<char>)>>)
    requires
        forall|i: int|
            0 <= i < callbacks.len() ==> param_value(#[trigger] callbacks[i], "code"@) is None,
    ensures
        kept_after(callbacks) is None,
    decreases callbacks.len(),
{
    if callbacks.len() > 0 {
        assert(param_value(callbacks[callbacks.len() - 1], "code"@) is None);
        no_code_is_made_up(callbacks.drop_last());
    }
}

/// The redirect URI is short, even percent-encoded.
proof fn lemma_encoded_redirect_uri_is_short()
    ensures
        text::percent_encoded(REDIRECT_URI.spec_bytes()).len() <= 42,
{
    lemma_encoded_redirect_uri();
    reveal_strlit("http%3A%2F%2F127.0.0.1%3A8888%2Fcallback");
}

/// The part of the login page's URL that stands before the challenge.
spec fn before_challenge() -> Seq<char> {
    "https://accounts.spotify.com/authorize?client_id="@ + CLIENT_ID@
        + "&response_type=code&redirect_uri="@ + text::percent_encoded(REDIRECT_URI.spec_bytes())
        + "&scope=user-read-recently-played%20playlist-modify-public%20playlist-read-private&code_challenge="@
}

/// Among any 43 neighbouring characters before the challenge is one that no code verifier
/// holds, and the last character before the challenge is one.
proof fn lemma_before_challenge_is_broken(start: int) -> (index: int)
    requires
        0 <= start < before_challenge().len(),
    ensures
        start <= index < start + 43,
        index < before_challenge().len(),
        !pkce::is_url_safe(before_challenge()[index]),
{
    let a = "https://accounts.spotify.com/authorize?client_id="@;
    let b = "&response_type=code&redirect_uri="@;
    let c = "&scope=user-read-recently-played%20playlist-modify-public%20playlist-read-private&code_challenge="@;
    let encoded = text::percent_encoded(REDIRECT_URI.spec_bytes());
    lemma_encoded_redirect_uri_is_short();
    reveal_strlit("https://accounts.spotify.com/authorize?client_id=");
    reveal_strlit("029dec42942148988a90b86aa92756dd");
    reveal_strlit("&response_type=code&redirect_uri=");
    reveal_strlit(
        "&scope=user-read-recently-played%20playlist-modify-public%20playlist-read-private&code_challenge=",
    );
    let whole = before_challenge();
    let tail = 114 + encoded.len() as int;
    assert(a.len() == 49 && CLIENT_ID@.len() == 32 && b.len() == 33 && c.len() == 97);
    assert(whole.len() == tail + 97);
    assert(whole[5] == a[5] && whole[38] == a[38] && whole[48] == a[48]);
    assert(whole[81] == b[0] && whole[95] == b[14] && whole[113] == b[32]);
    assert(whole[tail] == c[0] && whole[tail + 6] == c[6] && whole[tail + 32] == c[32]);
    assert(whole[tail + 57] == c[57] && whole[tail + 81] == c[81] && whole[tail + 96] == c[96]);
    if start <= 5 {
        5
    } else if start <= 38 {
        38
    } else if start <= 48 {
        48
    } else if start <= 81 {
        81
    } else if start <= 95 {
        95
    } else if start <= 113 {
        113
    } else if start <= tail {
        tail
    } else if start <= tail + 6 {
        tail + 6
    } else if start <= tail + 32 {
        tail + 32
    } else if start <= tail + 57 {
        tail + 57
    } else if start <= tail + 81 {
        tail + 81
    } else {
        tail + 96
    }
}

/// A code verifier of 43 URL-safe characters stands nowhere in the URL of the login page,
/// unless it is the challenge itself.
pub proof fn login_page_hides_the_verifier(verifier: Seq<char>, challenge: Seq<char>)
    requires
        verifier.len() == 43,
        forall|i: int| 0 <= i < verifier.len() ==> pkce::is_url_safe(#[trigger] verifier[i]),
        challenge.len() == 43,
        verifier != challenge,
    ensures
        !text::occurs_in(verifier, auth_url_view(challenge)),
{
    let url = auth_url_view(challenge);
    let before = before_challenge();
    let after = "&code_challenge_method=S256"@;
    reveal_strlit("&code_challenge_method=S256");
    assert(url =~= before + challenge + after);
    assert(after.len() == 27 && after[0] == '&');
    assert forall|start: int| 0 <= start <= url.len() - verifier.len() implies #[trigger] url.subrange(
        start,
        start + verifier.len(),
    ) != verifier by {
        let window = url.subrange(start, start + verifier.len());
        if start < before.len() {
            let index = lemma_before_challenge_is_broken(start);
            assert(window[index - start] == before[index]);
        } else if start == before.len() {
            assert(window =~= challenge);
        } else {
            let index = before.len() + 43;
            assert(window[index - start] == after[0]);
        }
    }
}

/// The value of a parameter is that of the first pair with its name, and there is one exactly
/// when there is such a pair.
pub proof fn param_value_is_the_first(
    params: Seq<(Seq<char>, Seq<char>)>,
    name: Seq<char>,
    index: int,
)
    ensures
        (forall|i: int| 0 <= i < params.len() ==> (#[trigger] params[i]).0 != name)
            ==> param_value(params, name) is None,
        0 <= index < params.len() && params[index].0 == name && (forall|i: int|
            0 <= i < index ==> (#[trigger] params[i]).0 != name) ==> param_value(params, name)
            == Some(params[index].1),
    decreases params.len(),
{
    if params.len() > 0 {
        let rest = params.drop_first();
        param_value_is_the_first(rest, name, index - 1);
        assert(forall|i: int| 0 <= i < rest.len() ==> #[trigger] rest[i] == params[i + 1]);
        assert(params.first() == params[0]);
        if 0 < index < params.len() && (forall|i: int|
            0 <= i < index ==> (#[trigger] params[i]).0 != name) {
            assert forall|i: int| 0 <= i < index - 1 implies (#[trigger] rest[i]).0 != name by {
                assert(params[i + 1].0 != name);
            }
        }
        if forall|i: int| 0 <= i < params.len() ==> (#[trigger] params[i]).0 != name {
            assert forall|i: int| 0 <= i < rest.len() implies (#[trigger] rest[i]).0 != name by {
                assert(params[i + 1].0 != name);
            }
        }
    }
}

/// A callback with a code replaces the code by its own, whole; one without leaves it.
pub proof fn callbacks_replace_the_code(
    code: Option<Seq<char>>,
    params: Seq<(Seq<char>, Seq<char>)>,
    index: int,
)
    ensures
        (forall|i: int| 0 <= i < params.len() ==> (#[trigger] params[i]).0 != "code"@) ==> kept_code(
            code,
            params,
        ) == code,
        0 <= index < params.len() && params[index].0 == "code"@ && (forall|i: int|
            0 <= i < index ==> (#[trigger] params[i]).0 != "code"@) ==> kept_code(code, params)
            == Some(params[index].1),
{
    param_value_is_the_first(params, "code"@, index);
}

/// A run of bytes that stand for themselves is encoded as the text that it is.
proof fn lemma_encode_unreserved(bytes: Seq<u8>, done: int, count: int, text: Seq<char>, written: int)
    requires
        0 <= done,
        0 <= count,
        done + count <= bytes.len(),
        0 <= written,
        written + count <= text.len(),
        text::percent_encoded(bytes.take(done)) == text.take(written),
        forall|i: int|
            done <= i < done + count ==> {
                &&& text::is_unreserved(#[trigger] bytes[i])
                &&& text[written + i - done] == bytes[i] as char
            },
    ensures
        text::percent_encoded(bytes.take(done + count)) == text.take(written + count),
    decreases count,
{
    if count > 0 {
        lemma_encode_unreserved(bytes, done, count - 1, text, written);
        let last = done + count - 1;
        assert(text::is_unreserved(bytes[last]));
        assert(bytes.take(last + 1).drop_last() =~= bytes.take(last));
        assert(text.take(written + count) =~= text.take(written + count - 1) + seq![
            bytes[last] as char,
        ]);
    }
}

/// A byte that does not stand for itself is encoded as three characters.
proof fn lemma_encode_reserved(bytes: Seq<u8>, done: int, text: Seq<char>, written: int)
    requires
        0 <= done < bytes.len(),
        0 <= written,
        written + 3 <= text.len(),
        text::percent_encoded(bytes.take(done)) == text.take(written),
        !text::is_unreserved(bytes[done]),
        text[written] == '%',
        text[written + 1] == text::hex_digit(bytes[done] as int / 16),
        text[written + 2] == text::hex_digit(bytes[done] as int % 16),
    ensures
        text::percent_encoded(bytes.take(done + 1)) == text.take(written + 3),
{
    assert(bytes.take(done + 1).drop_last() =~= bytes.take(done));
    assert(text.take(written + 3) =~= text.take(written) + text::percent_encoded_byte(
        bytes[done],
    ));
}

/// The login page, character for character: only the challenge varies, and all of it is there.
pub proof fn login_page_is_fixed_around_the_challenge(code_challenge: Seq<char>)
    ensures
        auth_url_view(code_challenge)
            == "https://accounts.spotify.com/authorize?client_id=029dec42942148988a90b86aa92756dd&response_type=code&redirect_uri=http%3A%2F%2F127.0.0.1%3A8888%2Fcallback&scope=user-read-recently-played%20playlist-modify-public%20playlist-read-private&code_challenge="@
            + code_challenge + "&code_challenge_method=S256"@,
{
    lemma_encoded_redirect_uri();
    reveal_strlit("https://accounts.spotify.com/authorize?client_id=");
    reveal_strlit("029dec42942148988a90b86aa92756dd");
    reveal_strlit("&response_type=code&redirect_uri=");
    reveal_strlit("http%3A%2F%2F127.0.0.1%3A8888%2Fcallback");
    reveal_strlit(
        "&scope=user-read-recently-played%20playlist-modify-public%20playlist-read-private&code_challenge=",
    );
    reveal_strlit(
        "https://accounts.spotify.com/authorize?client_id=029dec42942148988a90b86aa92756dd&response_type=code&redirect_uri=http%3A%2F%2F127.0.0.1%3A8888%2Fcallback&scope=user-read-recently-played%20playlist-modify-public%20playlist-read-private&code_challenge=",
    );
    let whole = "https://accounts.spotify.com/authorize?client_id=029dec42942148988a90b86aa92756dd&response_type=code&redirect_uri=http%3A%2F%2F127.0.0.1%3A8888%2Fcallback&scope=user-read-recently-played%20playlist-modify-public%20playlist-read-private&code_challenge="@;
    assert(before_challenge() =~= whole);
}

/// The redirect URI, percent-encoded.
proof fn lemma_encoded_redirect_uri()
    ensures
        text::percent_encoded(REDIRECT_URI.spec_bytes())
            == "http%3A%2F%2F127.0.0.1%3A8888%2Fcallback"@,
{
    reveal_strlit("http://127.0.0.1:8888/callback");
    reveal_strlit("http%3A%2F%2F127.0.0.1%3A8888%2Fcallback");
    assert(vstd::utf8::is_ascii_chars(REDIRECT_URI@));
    vstd::utf8::is_ascii_chars_encode_utf8(REDIRECT_URI@);
    let bytes = REDIRECT_URI.spec_bytes();
    let text = "http%3A%2F%2F127.0.0.1%3A8888%2Fcallback"@;
    assert(bytes.len() == 30 && text.len() == 40);
    assert(forall|i: int| 0 <= i < 30 ==> #[trigger] bytes[i] == REDIRECT_URI@[i] as u8);
    assert(text::percent_encoded(bytes.take(0)) =~= text.take(0));
    lemma_encode_unreserved(bytes, 0, 4, text, 0);
    lemma_encode_reserved(bytes, 4, text, 4);
    lemma_encode_reserved(bytes, 5, text, 7);
    lemma_encode_reserved(bytes, 6, text, 10);
    lemma_encode_unreserved(bytes, 7, 9, text, 13);
    lemma_encode_reserved(bytes, 16, text, 22);
    lemma_encode_unreserved(bytes, 17, 4, text, 25);
    lemma_encode_reserved(bytes, 21, text, 29);
    lemma_encode_unreserved(bytes, 22, 8, text, 32);
    assert(bytes.take(30) =~= bytes);
    assert(text.take(40) =~= text);
}

} // verus!
