//! Local validation of an endpoint address, before any network attempt.

use vstd::prelude::*;

verus! {

/// Why an address is refused without touching the network.
#[derive(Clone, Copy, Debug, PartialEq, Eq, Structural)]
pub enum ValidationError {
    /// The address holds no character.
    EmptyUrl,
    /// The address begins with neither scheme of the transport.
    MissingScheme,
}

/// The plaintext scheme prefix, `ws://`.
pub open spec fn plain_scheme() -> Seq<char> {
    seq!['w', 's', ':', '/', '/']
}

/// The encrypted scheme prefix, `wss://`.
pub open spec fn secure_scheme() -> Seq<char> {
    seq!['w', 's', 's', ':', '/', '/']
}

/// The address names its protocol.
pub open spec fn has_scheme(url: Seq<char>) -> bool {
    plain_scheme().is_prefix_of(url) || secure_scheme().is_prefix_of(url)
}

/// The reason to refuse `url`, or `None` where it is accepted.
pub open spec fn validation(url: Seq<char>) -> Option<ValidationError> {
    if url.len() == 0 {
        Some(ValidationError::EmptyUrl)
    } else if !has_scheme(url) {
        Some(ValidationError::MissingScheme)
    } else {
        None
    }
}

/// Whether `text` begins with the characters of `prefix`.
pub fn has_prefix(text: &str, prefix: &str) -> (found: bool)
    ensures
        found == prefix@.is_prefix_of(text@),
{
    let n: usize = prefix.unicode_len();
    if text.unicode_len() < n {
        return false;
    }
    let mut i: usize = 0;
    while i < n
        invariant
            n == prefix@.len(),
            n <= text@.len(),
            i <= n,
            forall|j: int| 0 <= j < i ==> text@[j] == prefix@[j],
        decreases n - i,
    {
        if text.get_char(i) != prefix.get_char(i) {
            assert(text@.subrange(0, n as int)[i as int] != prefix@[i as int]);
            return false;
        }
        i += 1;
    }
    assert(text@.subrange(0, n as int) =~= prefix@);
    true
}

/// Checks an address as `connect` does: it must not be empty and must begin
/// with `ws://` or `wss://`.
pub fn validate_url(url: &str) -> (checked: Result<(), ValidationError>)
    ensures
        checked == match validation(url@) {
            Some(reason) => Err::<(), ValidationError>(reason),
            None => Ok::<(), ValidationError>(()),
        },
{
    proof {
        reveal_strlit("ws://");
        reveal_strlit("wss://");
        assert("ws://"@ =~= plain_scheme());
        assert("wss://"@ =~= secure_scheme());
    }
    if url.is_empty() {
        Err(ValidationError::EmptyUrl)
    } else if !has_prefix(url, "ws://") && !has_prefix(url, "wss://") {
        Err(ValidationError::MissingScheme)
    } else {
        Ok(())
    }
}

impl ValidationError {
    /// The characters of the line that reports this refusal.
    pub open spec fn text(self) -> Seq<char> {
        match self {
            ValidationError::EmptyUrl => "请输入连接地址！"@,
            ValidationError::MissingScheme => "the protocol must be explicit: ws:// or wss://"@,
        }
    }

    /// The line that reports this refusal to the operator.
    pub fn message(&self) -> (line: String)
        ensures
            line@ == self.text(),
    {
        match self {
            ValidationError::EmptyUrl => "请输入连接地址！".to_owned(),
            ValidationError::MissingScheme => "the protocol must be explicit: ws:// or wss://".to_owned(),
        }
    }
}

} // verus!
