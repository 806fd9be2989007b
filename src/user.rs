//! User identities: the UUID and the command key derived from it.

use crate::crypto::{md5, md5_of};
use vstd::prelude::*;

verus! {

/// ASCII "c48619fe-8f02-49e0-b9e9-edf763e17e21", appended to the UUID before hashing it into the command key.
pub open spec fn cmd_key_magic_spec() -> Seq<u8> {
    seq![99, 52, 56, 54, 49, 57, 102, 101, 45, 56, 102, 48, 50, 45, 52, 57, 101, 48, 45, 98, 57, 101, 57, 45, 101, 100, 102, 55, 54, 51, 101, 49, 55, 101, 50, 49]
}

fn cmd_key_magic() -> (r: Vec<u8>)
    ensures
        r@ == cmd_key_magic_spec(),
{
    let r: Vec<u8> = vec![99, 52, 56, 54, 49, 57, 102, 101, 45, 56, 102, 48, 50, 45, 52, 57, 101, 48, 45, 98, 57, 101, 57, 45, 101, 100, 102, 55, 54, 51, 101, 49, 55, 101, 50, 49];
    assert(r@ =~= cmd_key_magic_spec());
    r
}

/// A user: the sixteen UUID bytes and the command key, the MD5 of the UUID
/// followed by the fixed magic string.
#[derive(Clone, Debug)]
pub struct ID {
    pub uuid: Vec<u8>,
    pub cmd_key: Vec<u8>,
}

impl ID {
    pub open spec fn wf(&self) -> bool {
        &&& self.uuid@.len() == 16
        &&& self.cmd_key@ == md5_of(self.uuid@ + cmd_key_magic_spec())
        &&& self.cmd_key@.len() == 16
    }

    pub fn new(uuid: &[u8]) -> (r: ID)
        requires
            uuid@.len() == 16,
        ensures
            r.uuid@ == uuid@,
            r.wf(),
    {
        let mut data = vstd::slice::slice_to_vec(uuid);
        let magic = cmd_key_magic();
        data.extend_from_slice(magic.as_slice());
        assert(data@ =~= uuid@ + cmd_key_magic_spec());
        let cmd_key = md5(data.as_slice());
        ID { uuid: vstd::slice::slice_to_vec(uuid), cmd_key }
    }
}

} // verus!
