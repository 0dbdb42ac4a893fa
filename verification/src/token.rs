//! The two cookie fragments that stand for an authenticated browser session.

use crate::text::chars_of;
use vstd::prelude::*;
use vstd::string::{StrSliceExecFns, StringExecFns};

verus! {

/// The session cookie pair, each fragment in the `key=value` form the judge
/// expects. Once built, a token does not change.
#[derive(Clone, Debug, PartialEq, Eq)]
pub struct Token {
    client_id: String,
    uid: String,
}

/// A token as plain text.
pub struct TokenView {
    pub client_id: Seq<char>,
    pub uid: Seq<char>,
}

impl View for Token {
    type V = TokenView;

    closed spec fn view(&self) -> TokenView {
        TokenView { client_id: self.client_id@, uid: self.uid@ }
    }
}

/// Where the part of a text behind its last `mark` begins: behind that mark,
/// or at the front where the text holds none.
pub open spec fn cut_after(text: Seq<char>, mark: char) -> int
    decreases text.len(),
{
    if text.len() == 0 {
        0
    } else if text.last() == mark {
        text.len() as int
    } else {
        cut_after(text.drop_last(), mark)
    }
}

/// The part of a text behind its last `mark`; the whole text where it holds none.
pub open spec fn after_last(text: Seq<char>, mark: char) -> Seq<char> {
    text.subrange(cut_after(text, mark), text.len() as int)
}

impl TokenView {
    /// The token made of two raw cookie values: each behind its key.
    pub open spec fn of_values(client_id_value: Seq<char>, uid_value: Seq<char>) -> TokenView {
        TokenView { client_id: "__client_id="@ + client_id_value, uid: "_uid="@ + uid_value }
    }

    /// The value of the `Cookie` header: the two fragments joined by `;`.
    pub open spec fn cookie(self) -> Seq<char> {
        self.client_id + ";"@ + self.uid
    }

    /// The user's identifier: what stands behind the last `=` of the `uid` fragment.
    pub open spec fn user_id(self) -> Seq<char> {
        after_last(self.uid, '=')
    }
}

impl Token {
    /// Holds the two fragments exactly as given.
    pub fn build(client_id: String, uid: String) -> (token: Token)
        ensures
            token@ == (TokenView { client_id: client_id@, uid: uid@ }),
    {
        Token { client_id, uid }
    }

    /// The fragment that carries the client id.
    pub fn client_id(&self) -> (fragment: &str)
        ensures
            fragment@ == self@.client_id,
    {
        self.client_id.as_str()
    }

    /// The fragment that carries the user id.
    pub fn uid(&self) -> (fragment: &str)
        ensures
            fragment@ == self@.uid,
    {
        self.uid.as_str()
    }

    /// The value of the `Cookie` header.
    pub fn cookie(&self) -> (cookie: String)
        ensures
            cookie@ == self@.cookie(),
    {
        let mut cookie = self.client_id.clone();
        cookie.append(";");
        cookie.append(self.uid.as_str());
        cookie
    }

    /// The user's identifier, as the judge's record list wants it.
    pub fn user_id(&self) -> (id: String)
        ensures
            id@ == self@.user_id(),
    {
        let chars = chars_of(self.uid.as_str());
        let mut cut: usize = chars.len();
        assert(chars@.take(cut as int) =~= chars@);
        while cut > 0 && chars[cut - 1] != '='
            invariant
                cut <= chars.len(),
                cut_after(chars@, '=') == cut_after(chars@.take(cut as int), '='),
            decreases cut,
        {
            assert(chars@.take(cut as int).drop_last() =~= chars@.take(cut - 1));
            cut -= 1;
        }
        self.uid.as_str().substring_char(cut, chars.len()).to_owned()
    }
}

/// Builds the token from the two raw cookie values: each is put behind its
/// key, `__client_id=` and `_uid=`, and is not looked at otherwise.
pub fn get_token(client_id_value: &str, uid_value: &str) -> (token: Token)
    ensures
        token@ == TokenView::of_values(client_id_value@, uid_value@),
{
    let client_id = "__client_id=".to_owned().concat(client_id_value);
    let uid = "_uid=".to_owned().concat(uid_value);
    Token::build(client_id, uid)
}

/// Nothing behind the last mark is a mark, and a mark stands just before it
/// unless the text holds none.
pub proof fn law_after_last(text: Seq<char>, mark: char)
    ensures
        0 <= cut_after(text, mark) <= text.len(),
        forall|i: int| cut_after(text, mark) <= i < text.len() ==> #[trigger] text[i] != mark,
        cut_after(text, mark) > 0 ==> text[cut_after(text, mark) - 1] == mark,
        cut_after(text, mark) == 0 ==> !text.contains(mark),
    decreases text.len(),
{
    if text.len() > 0 && text.last() != mark {
        let front = text.drop_last();
        law_after_last(front, mark);
        assert forall|i: int| cut_after(text, mark) <= i < text.len() implies #[trigger] text[i]
            != mark by {
            if i < front.len() {
                assert(text[i] == front[i]);
            }
        }
        if cut_after(text, mark) > 0 {
            assert(text[cut_after(text, mark) - 1] == front[cut_after(text, mark) - 1]);
        } else {
            assert forall|i: int| 0 <= i < text.len() implies text[i] != mark by {
                if i < front.len() {
                    assert(text[i] == front[i]);
                }
            }
        }
    }
}

/// A raw user identifier without `=` comes back out of the token built from it.
pub proof fn law_user_id_round_trip(client_id_value: Seq<char>, uid_value: Seq<char>)
    requires
        !uid_value.contains('='),
    ensures
        TokenView::of_values(client_id_value, uid_value).user_id() == uid_value,
{
    reveal_strlit("_uid=");
    let text = "_uid="@ + uid_value;
    law_after_last(text, '=');
    let cut = cut_after(text, '=');
    assert(text[4] == '=');
    assert forall|i: int| 5 <= i < text.len() implies text[i] != '=' by {
        assert(text[i] == uid_value[i - 5]);
        assert(uid_value.contains(uid_value[i - 5]));
    }
    if cut < 5 {
        assert(text[4] != '=');
    }
    if cut > 5 {
        assert(text[cut - 1] == '=');
    }
    assert(after_last(text, '=') =~= uid_value);
}

} // verus!
