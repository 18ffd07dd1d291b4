//! Monotone id generators and texture-load configuration for the
//! resource-loading layer.

use vstd::prelude::*;

pub mod load;
pub mod model;

verus! {

use crate::gl::texture::TextureChannel;
use crate::gl::texture::TextureConfig;
use crate::gl::texture::TextureWrap;

/// A texture configuration waiting for its size: everything
/// [`TextureConfig`] holds except the edge length, which is known only once
/// the image is decoded.
#[derive(Debug, Clone)]
pub struct TextureLoadConfig {
    pub channel: TextureChannel,
    pub mipmap: bool,
    pub wrap_s: TextureWrap,
    pub wrap_t: TextureWrap,
}

impl TextureLoadConfig {
    /// The full configuration, with the decoded image's size filled in.
    pub fn add_size(&self, size: u32) -> (r: TextureConfig)
        ensures
            r == (TextureConfig {
                size,
                channel: self.channel,
                mipmap: self.mipmap,
                wrap_s: self.wrap_s,
                wrap_t: self.wrap_t,
            }),
    {
        TextureConfig {
            size,
            channel: self.channel,
            mipmap: self.mipmap,
            wrap_s: self.wrap_s,
            wrap_t: self.wrap_t,
        }
    }
}

/// A value that can step to a well-defined successor.
pub trait Increment: Sized {
    /// Whether stepping once more stays inside the value's range.
    spec fn can_increase(&self) -> bool;

    /// The successor value.
    spec fn spec_increased(&self) -> Self;

    fn increase(&mut self)
        requires
            old(self).can_increase(),
        ensures
            *final(self) == old(self).spec_increased(),
    ;
}

impl Increment for u32 {
    open spec fn can_increase(&self) -> bool {
        *self < u32::MAX
    }

    open spec fn spec_increased(&self) -> Self {
        (*self + 1) as u32
    }

    fn increase(&mut self) {
        *self = *self + 1;
    }
}

impl Increment for u64 {
    open spec fn can_increase(&self) -> bool {
        *self < u64::MAX
    }

    open spec fn spec_increased(&self) -> Self {
        (*self + 1) as u64
    }

    fn increase(&mut self) {
        *self = *self + 1;
    }
}

/// A counter that hands out the current value and steps to its successor.
#[derive(Debug, PartialEq, Clone)]
pub struct Id<T: PartialEq + Copy + Increment> {
    value: T,
}

impl<T: PartialEq + Copy + Increment> Id<T> {
    /// The value the counter will hand out next.
    pub closed spec fn spec_current(&self) -> T {
        self.value
    }

    pub fn new(start: T) -> (r: Self)
        ensures
            r.spec_current() == start,
    {
        Id { value: start }
    }

    pub fn next(&mut self) -> (r: T)
        requires
            old(self).spec_current().can_increase(),
        ensures
            r == old(self).spec_current(),
            final(self).spec_current() == old(self).spec_current().spec_increased(),
    {
        let ret = self.value;
        self.value.increase();
        ret
    }

    pub fn current(&self) -> (r: &T)
        ensures
            *r == self.spec_current(),
    {
        &self.value
    }
}

impl<T: PartialEq + Copy + Increment> Increment for Id<T> {
    open spec fn can_increase(&self) -> bool {
        self.spec_current().can_increase()
    }

    closed spec fn spec_increased(&self) -> Self {
        Id { value: self.value.spec_increased() }
    }

    fn increase(&mut self) {
        self.value.increase();
    }
}

/// Stepping a counter steps the value it will hand out next.
pub proof fn lemma_id_increased<T: PartialEq + Copy + Increment>(id: Id<T>)
    ensures
        Increment::spec_increased(&id).spec_current() == id.spec_current().spec_increased(),
{
}

/// How long a decoded audio clip plays, as whole seconds and leftover
/// nanoseconds: the sample count scaled to nanoseconds, divided by the
/// sample rate and the channel count.  `None` when the clip is so long that
/// the nanosecond count does not fit 64 bits.
pub fn audio_duration(samples: u64, channels: u16, sample_rate: u32) -> (r: Option<(u64, u32)>)
    requires
        channels != 0,
        sample_rate != 0,
    ensures
        match r {
            Some((secs, nanos)) => {
                let total = 1_000_000_000 * samples / (sample_rate as int) / (channels as int);
                &&& samples <= u64::MAX / 1_000_000_000
                &&& secs == total / 1_000_000_000
                &&& nanos == total % 1_000_000_000
            },
            None => samples > u64::MAX / 1_000_000_000,
        },
{
    if samples > u64::MAX / 1_000_000_000 {
        return None;
    }
    let total: u64 = (1_000_000_000 * samples) / (sample_rate as u64) / (channels as u64);
    Some((total / 1_000_000_000, (total % 1_000_000_000) as u32))
}

/// An already-materialized file: its path, the request key it answers, and
/// its bytes.
#[derive(Debug, Clone)]
pub struct File {
    pub path: String,
    pub key: u64,
    pub data: Vec<u8>,
}

/// The name the protocol registered for a request key: the first matching
/// entry, if any.
pub open spec fn spec_key_name(keys: Seq<(u64, String)>, key: u64) -> Option<Seq<char>>
    decreases keys.len(),
{
    if keys.len() == 0 {
        None
    } else if keys[0].0 == key {
        Some(keys[0].1@)
    } else {
        spec_key_name(keys.drop_first(), key)
    }
}

/// The file delivered under a registered name: the first matching entry, if
/// any.
pub open spec fn spec_file_for(files: Seq<(String, File)>, name: Seq<char>) -> Option<File>
    decreases files.len(),
{
    if files.len() == 0 {
        None
    } else if files[0].0@ == name {
        Some(files[0].1)
    } else {
        spec_file_for(files.drop_first(), name)
    }
}

/// The bookkeeping of one resource's load: which request keys were issued
/// under which names, which files have come back, and how many are still
/// missing.  Issuing the I/O for a request is the event loop's work; the
/// protocol only decides and records.
#[derive(Debug, Clone)]
pub struct Loadprotocol {
    pub name: String,
    pub keys: Vec<(u64, String)>,
    pub files: Vec<(String, File)>,
    pub missing_files: usize,
}

impl Loadprotocol {
    /// A protocol with no requests yet.
    pub fn empty(name: String) -> (r: Self)
        ensures
            r.name == name,
            r.keys@ == Seq::<(u64, String)>::empty(),
            r.files@ == Seq::<(String, File)>::empty(),
            r.missing_files == 0,
    {
        let missing_files: usize = 0;
        let r = Loadprotocol { name, keys: Vec::new(), files: Vec::new(), missing_files };
        proof {
            assert(r.keys@ =~= Seq::<(u64, String)>::empty());
            assert(r.files@ =~= Seq::<(String, File)>::empty());
        }
        r
    }

    /// Register one file request under `keyname` and hand back the request
    /// the I/O layer must perform: the path to read and the key the answer
    /// must carry.
    pub fn request_file(
        &mut self,
        key_gen: &mut Id<u64>,
        path: &str,
        keyname: &str,
    ) -> (r: (String, u64))
        requires
            old(key_gen).spec_current() < u64::MAX,
            old(self).missing_files < usize::MAX,
        ensures
            r.0@ == path@,
            r.1 == old(key_gen).spec_current(),
            final(key_gen).spec_current() == old(key_gen).spec_current() + 1,
            final(self).name == old(self).name,
            final(self).keys@.len() == old(self).keys@.len() + 1,
            final(self).keys@.last().0 == old(key_gen).spec_current(),
            final(self).keys@.last().1@ == keyname@,
            final(self).keys@.drop_last() == old(self).keys@,
            final(self).files@ == old(self).files@,
            final(self).missing_files == old(self).missing_files + 1,
    {
        let key = key_gen.next();
        self.missing_files = self.missing_files + 1;
        self.keys.push((key, keyname.to_owned()));
        (path.to_owned(), key)
    }

    /// Whether this protocol issued the request `key` answers.
    pub fn needs_key(&self, key: u64) -> (r: bool)
        ensures
            r == (spec_key_name(self.keys@, key) is Some),
    {
        let n = self.keys.len();
        let mut i: usize = 0;
        proof {
            assert(self.keys@.skip(0) =~= self.keys@);
        }
        while i < n
            invariant
                n == self.keys@.len(),
                0 <= i <= n,
                spec_key_name(self.keys@, key) == spec_key_name(
                    self.keys@.skip(i as int),
                    key,
                ),
            decreases n - i,
        {
            proof {
                assert(self.keys@.skip(i as int)[0] == self.keys@[i as int]);
                assert(self.keys@.skip(i as int).drop_first() =~= self.keys@.skip(i as int + 1));
            }
            if self.keys[i].0 == key {
                return true;
            }
            i = i + 1;
        }
        proof {
            assert(self.keys@.skip(n as int) =~= Seq::<(u64, String)>::empty());
        }
        false
    }

    /// Record a delivered file under the name its key was registered with.
    /// A key this protocol never issued is a fatal contract violation, so
    /// the key's registration — and a file still being missing — are
    /// preconditions here.
    pub fn add_file(&mut self, file: File)
        requires
            spec_key_name(old(self).keys@, file.key) is Some,
            old(self).missing_files > 0,
        ensures
            final(self).name == old(self).name,
            final(self).keys@ == old(self).keys@,
            final(self).files@.len() == old(self).files@.len() + 1,
            final(self).files@.drop_last() == old(self).files@,
            final(self).files@.last().0@ == spec_key_name(old(self).keys@, file.key).unwrap(),
            final(self).files@.last().1 == file,
            final(self).missing_files == old(self).missing_files - 1,
    {
        let n = self.keys.len();
        let mut i: usize = 0;
        proof {
            assert(self.keys@.skip(0) =~= self.keys@);
        }
        loop
            invariant
                n == self.keys@.len(),
                0 <= i <= n,
                spec_key_name(self.keys@, file.key) is Some,
                spec_key_name(self.keys@, file.key) == spec_key_name(
                    self.keys@.skip(i as int),
                    file.key,
                ),
                self.missing_files == old(self).missing_files,
                self.missing_files > 0,
                *self == *old(self),
            decreases n - i,
        {
            proof {
                if i as int == n {
                    assert(self.keys@.skip(n as int) =~= Seq::<(u64, String)>::empty());
                }
                assert(i < n);
                assert(self.keys@.skip(i as int)[0] == self.keys@[i as int]);
                assert(self.keys@.skip(i as int).drop_first() =~= self.keys@.skip(i as int + 1));
            }
            if self.keys[i].0 == file.key {
                let keyname = self.keys[i].1.clone();
                self.files.push((keyname, file));
                self.missing_files = self.missing_files - 1;
                return;
            }
            i = i + 1;
        }
    }

    /// Whether every requested file has been delivered.
    pub fn can_be_interpreted(&self) -> (r: bool)
        ensures
            r == (self.missing_files == 0),
    {
        self.missing_files == 0
    }

    /// The bytes delivered under a registered name.  Asking for a file
    /// that has not been delivered is a fatal contract violation, so its
    /// presence is a precondition here.
    pub fn get_data(&self, keyname: &str) -> (r: &Vec<u8>)
        requires
            spec_file_for(self.files@, keyname@) is Some,
        ensures
            r@ == spec_file_for(self.files@, keyname@).unwrap().data@,
    {
        let owned = keyname.to_owned();
        let n = self.files.len();
        let mut i: usize = 0;
        proof {
            assert(self.files@.skip(0) =~= self.files@);
        }
        loop
            invariant
                n == self.files@.len(),
                0 <= i <= n,
                owned@ == keyname@,
                spec_file_for(self.files@, keyname@) is Some,
                spec_file_for(self.files@, keyname@) == spec_file_for(
                    self.files@.skip(i as int),
                    keyname@,
                ),
            decreases n - i,
        {
            proof {
                if i as int == n {
                    assert(self.files@.skip(n as int) =~= Seq::<(String, File)>::empty());
                }
                assert(i < n);
                assert(self.files@.skip(i as int)[0] == self.files@[i as int]);
                assert(self.files@.skip(i as int).drop_first() =~= self.files@.skip(i as int + 1));
            }
            if self.files[i].0 == owned {
                return &self.files[i].1.data;
            }
            i = i + 1;
        }
    }

    /// The protocol's display name.
    pub fn name(&self) -> (r: String)
        ensures
            r@ == self.name@,
    {
        self.name.clone()
    }
}

} // verus!
