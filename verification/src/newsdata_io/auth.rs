use vstd::prelude::*;

verus! {

/// The API key of one newsdata.io account, fixed at construction.
#[derive(Debug)]
pub struct Auth {
    api_key: String,
}

impl Auth {
    /// The key as a sequence of characters.
    pub closed spec fn key(&self) -> Seq<char> {
        self.api_key@
    }

    pub fn new(api_key: String) -> (auth: Self)
        ensures
            auth.key() == api_key@,
    {
        Self { api_key }
    }

    pub fn get_api_key(&self) -> (key: String)
        ensures
            key@ == self.key(),
    {
        self.api_key.clone()
    }
}

impl Clone for Auth {
    fn clone(&self) -> (copy: Self)
        ensures
            copy.key() == self.key(),
    {
        Self { api_key: self.api_key.clone() }
    }
}

} // verus!
