//! The configuration of a request, as gathered from the command line.

use vstd::prelude::*;

verus! {

/// Configuration of one request: an API key (empty when unauthenticated),
/// full header lines joined by commas, and the test harness's `nocapture`
/// flag, which the client itself ignores.
#[derive(Debug)]
pub struct Args {
    pub key: String,
    pub headers: String,
    pub nocapture: bool,
}

impl Args {
    /// The configuration with no overrides: no key, no headers.
    pub open spec fn is_default(&self) -> bool {
        &&& self.key@ == Seq::<char>::empty()
        &&& self.headers@ == Seq::<char>::empty()
        &&& !self.nocapture
    }

    /// Sets the option called `name` to `value`: `key` sets the API key,
    /// `headers` the header string; any other name leaves the configuration
    /// as it was.
    pub fn set_option(&mut self, name: &str, value: &str)
        ensures
            name@ == "key"@ ==> final(self).key@ == value@,
            name@ != "key"@ ==> final(self).key == old(self).key,
            name@ == "headers"@ ==> final(self).headers@ == value@,
            name@ != "headers"@ ==> final(self).headers == old(self).headers,
            final(self).nocapture == old(self).nocapture,
    {
        proof {
            reveal_strlit("key");
            reveal_strlit("headers");
            assert("key"@.len() != "headers"@.len());
        }
        if same_text(name, "key") {
            self.key = String::from_str(value);
        } else if same_text(name, "headers") {
            self.headers = String::from_str(value);
        }
    }
}

/// Whether `a` and `b` hold the same characters.
fn same_text(a: &str, b: &str) -> (r: bool)
    ensures
        r == (a@ == b@),
{
    let n = a.unicode_len();
    if n != b.unicode_len() {
        return false;
    }
    let mut i: usize = 0;
    while i < n
        invariant
            n == a@.len() == b@.len(),
            i <= n,
            a@.take(i as int) == b@.take(i as int),
        decreases n - i,
    {
        if a.get_char(i) != b.get_char(i) {
            assert(a@[i as int] != b@[i as int]);
            return false;
        }
        assert(a@.take(i + 1) =~= a@.take(i as int).push(a@[i as int]));
        assert(b@.take(i + 1) =~= b@.take(i as int).push(b@[i as int]));
        i = i + 1;
    }
    assert(a@.take(n as int) =~= a@);
    assert(b@.take(n as int) =~= b@);
    true
}

impl Default for Args {
    fn default() -> (r: Args)
        ensures
            r.is_default(),
    {
        Args { key: String::new(), headers: String::new(), nocapture: false }
    }
}

} // verus!
