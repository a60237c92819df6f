//! The shared handle and its access protocol.

use vstd::prelude::*;
use std::ops::Deref;
use std::ops::DerefMut;
use std::sync::Arc;
use std::sync::Mutex;
use std::sync::MutexGuard;
use std::sync::PoisonError;
use crate::errors::IoFailure;
use crate::errors::StoreError;
use crate::helpers::apply_mutation;
use crate::helpers::decoding_fails;
use crate::helpers::encoding_fails;
use crate::helpers::just_load;
use crate::helpers::just_write;
use crate::helpers::loaded_or_default;
use crate::helpers::settles;
use crate::helpers::text_of;
use crate::json::decoder_returns;
use crate::json::encoder_returns;
use crate::sync::share;

verus! {

/// What a handle is made with and never changes: where its file is, and
/// whether the file's text is indented.
pub struct Settings {
    pub path: Seq<char>,
    pub pretty: bool,
}

/// Minimum viable pseudo database: a value behind a lock, and the path of
/// the file that mirrors it.
///
/// Clones of a handle share one value and one lock.
#[verifier::reject_recursive_types(T)]
pub struct Mvdb<T> {
    inner: Arc<Mutex<T>>,
    file_path: String,
    pretty: bool,
}

impl<T> View for Mvdb<T> {
    type V = Settings;

    closed spec fn view(&self) -> Settings {
        Settings { path: self.file_path@, pretty: self.pretty }
    }
}

impl<T> Mvdb<T> {
    /// Whether two handles guard the same value with the same lock.
    pub closed spec fn shares_with(&self, other: &Self) -> bool {
        self.inner == other.inner
    }

    /// Whether the handle's lock was made around `value`.
    pub closed spec fn started_from(&self, value: T) -> bool {
        call_ensures(Mutex::<T>::new, (value,), *self.inner)
    }

    /// Whether the handle's lock, taken, showed `value`: to be read, or to
    /// be changed.
    pub closed spec fn shows(&self, value: T) -> bool {
        ||| exists|held: MutexGuard<T>|
            #![trigger call_ensures(<MutexGuard<T> as Deref>::deref, (&held,), &value)]
            call_ensures(Mutex::<T>::lock, (&*self.inner,), Ok(held))
                && call_ensures(<MutexGuard<T> as Deref>::deref, (&held,), &value)
        ||| exists|held: &mut MutexGuard<T>, shown: &mut T|
            #![trigger call_ensures(<MutexGuard<T> as DerefMut>::deref_mut, (held,), shown)]
            call_ensures(Mutex::<T>::lock, (&*self.inner,), Ok(*held))
                && call_ensures(<MutexGuard<T> as DerefMut>::deref_mut, (held,), shown)
                && *shown == value
    }

    /// Whether the handle's lock, taken, lent out `place` to change the
    /// value: what is left in `place` is what the lock holds from then on.
    pub closed spec fn lends(&self, place: &mut T) -> bool {
        exists|held: &mut MutexGuard<T>|
            #![trigger call_ensures(<MutexGuard<T> as DerefMut>::deref_mut, (held,), place)]
            call_ensures(Mutex::<T>::lock, (&*self.inner,), Ok(*held))
                && call_ensures(<MutexGuard<T> as DerefMut>::deref_mut, (held,), place)
    }

    /// Whether the handle's lock, asked for, returned the poison that a
    /// holder left when it panicked.
    pub closed spec fn poisoned(&self) -> bool {
        exists|poison: PoisonError<MutexGuard<T>>| #[trigger]
            call_ensures(
                Mutex::<T>::lock,
                (&*self.inner,),
                Err::<MutexGuard<T>, PoisonError<MutexGuard<T>>>(poison),
            )
    }

    /// Whether `action`, called on a value that the handle's lock showed,
    /// returned `ret`.
    pub open spec fn reads<F: Fn(&T) -> R, R>(&self, action: F, ret: R) -> bool {
        exists|value: &T| self.shows(*value) && #[trigger] call_ensures(action, (value,), ret)
    }

    /// Handles that share a lock cannot be told apart by what they started
    /// from or by what they show: there is one value for all of them.
    pub proof fn lemma_one_value(&self, other: &Self, value: T)
        requires
            self.shares_with(other),
        ensures
            other.shares_with(self),
            self.started_from(value) == other.started_from(value),
            self.shows(value) == other.shows(value),
            self.poisoned() == other.poisoned(),
            forall|place: &mut T| #[trigger] self.lends(place) == other.lends(place),
    {
    }

    /// The path of the backing file.
    pub fn file_path(&self) -> (path: &str)
        ensures
            path@ == self@.path,
    {
        self.file_path.as_str()
    }

    /// Whether the backing file's text is indented.
    pub fn is_pretty(&self) -> (pretty: bool)
        ensures
            pretty == self@.pretty,
    {
        self.pretty
    }
}

impl<T> Clone for Mvdb<T> {
    /// One more handle on the same value. `T` need not be `Clone`: the value
    /// is not copied.
    fn clone(&self) -> (other: Self)
        ensures
            other@ == self@,
            other.shares_with(self),
    {
        Mvdb { inner: share(&self.inner), file_path: self.file_path.clone(), pretty: self.pretty }
    }
}

/// A new handle whose file has not caught up yet.
///
/// The caller writes [`FirstWrite::text`] to the backing file, if there is
/// any, and then calls [`FirstWrite::finish`] with the outcome. Only that
/// call gives the handle, so that no handle is in use whose first write has
/// failed.
#[must_use]
#[verifier::reject_recursive_types(T)]
pub struct FirstWrite<T> {
    db: Mvdb<T>,
    text: Option<String>,
}

impl<T> FirstWrite<T> {
    /// The handle that [`FirstWrite::finish`] gives where the write
    /// succeeded.
    pub closed spec fn handle(&self) -> Mvdb<T> {
        self.db
    }

    /// The text that has to be written, if there is any.
    pub closed spec fn pending(&self) -> Option<String> {
        self.text
    }

    /// The text that the backing file has to hold, whole, before the handle
    /// is used; or `None` where the handle was loaded from the file as it
    /// is.
    pub fn text(&self) -> (text: Option<&str>)
        ensures
            match text {
                Some(t) => self.pending() matches Some(p) && p@ == t@,
                None => self.pending() is None,
            },
    {
        match &self.text {
            Some(text) => Some(text.as_str()),
            None => None,
        }
    }

    /// Returns the handle, or the failure of the write that it needed.
    ///
    /// `written` is the outcome of writing [`FirstWrite::text`]. Where
    /// nothing had to be written it is not looked at.
    pub fn finish(self, written: Result<(), IoFailure>) -> (r: Result<Mvdb<T>, StoreError>)
        ensures
            r == (match (self.pending(), written) {
                (Some(_), Err(step)) => Err::<Mvdb<T>, StoreError>(StoreError::Io(step)),
                _ => Ok::<Mvdb<T>, StoreError>(self.handle()),
            }),
    {
        let FirstWrite { db, text } = self;
        match (text, written) {
            (Some(_), Err(step)) => Err(StoreError::Io(step)),
            _ => Ok(db),
        }
    }
}

/// A mutation that has been made in memory, with the lock still held until
/// the file has caught up.
///
/// The caller writes [`WriteBack::text`] to the backing file, if there is
/// any, and then calls [`WriteBack::finish`] with the outcome. No other
/// access to the value runs in between. A caller that wants to try a failed
/// write again does so before it finishes: the text is at hand, and the
/// mutation need not run twice.
#[must_use]
#[verifier::reject_recursive_types(T)]
pub struct WriteBack<'a, T, R> {
    held: MutexGuard<'a, T>,
    ret: R,
    text: Option<String>,
}

impl<'a, T, R> WriteBack<'a, T, R> {
    /// What the mutation returned.
    pub closed spec fn result(&self) -> R {
        self.ret
    }

    /// The text that has to be written, if the encoding changed.
    pub closed spec fn pending(&self) -> Option<Seq<char>> {
        text_of(self.text)
    }

    /// The text that has to replace the backing file's contents, or `None`
    /// where the mutation left the encoding as it was.
    pub fn text(&self) -> (text: Option<&str>)
        ensures
            match text {
                Some(t) => self.pending() == Some(t@),
                None => self.pending() is None,
            },
    {
        match &self.text {
            Some(text) => Some(text.as_str()),
            None => None,
        }
    }

    /// Releases the lock and returns what the mutation returned, or the
    /// failure of the write that it needed.
    ///
    /// `written` is the outcome of writing [`WriteBack::text`]. Where
    /// nothing had to be written it is not looked at.
    pub fn finish(self, written: Result<(), IoFailure>) -> (r: Result<R, StoreError>)
        ensures
            r == (match (self.pending(), written) {
                (Some(_), Err(step)) => Err::<R, StoreError>(StoreError::Io(step)),
                _ => Ok::<R, StoreError>(self.result()),
            }),
    {
        let WriteBack { held, ret, text } = self;
        match (text, written) {
            (Some(_), Err(step)) => Err(StoreError::Io(step)),
            _ => Ok(ret),
        }
    }
}

impl<T> Mvdb<T> where T: serde::Serialize + serde::de::DeserializeOwned {
    /// Makes a handle on `data`, mirrored at `path` as compact text.
    ///
    /// Returns the handle as a [`FirstWrite`], with the encoding of `data`
    /// as the text that the file has to hold before the handle is used.
    /// Fails with [`StoreError::Encode`] where `data` cannot be encoded.
    pub fn new(data: T, path: &str) -> (r: Result<FirstWrite<T>, StoreError>)
        ensures
            Self::creates(data, path@, false, r),
    {
        Self::new_inner(data, path, false)
    }

    /// As [`Mvdb::new`], with indented text.
    pub fn new_pretty(data: T, path: &str) -> (r: Result<FirstWrite<T>, StoreError>)
        ensures
            Self::creates(data, path@, true, r),
    {
        Self::new_inner(data, path, true)
    }

    /// Whether `r` is what making a handle on `data` gives: a handle whose
    /// lock was made around `data`, with a text to write that the encoder
    /// returned for `data`; or the encoder's failure on `data`.
    pub open spec fn creates(
        data: T,
        path: Seq<char>,
        pretty: bool,
        r: Result<FirstWrite<T>, StoreError>,
    ) -> bool {
        match r {
            Ok(first) => first.handle()@ == (Settings { path, pretty })
                && first.handle().started_from(data)
                && (first.pending() matches Some(text)
                    && encoder_returns(data, pretty, Ok(text))),
            Err(e) => encoding_fails(data, pretty, e),
        }
    }

    /// Makes a handle on the value that the file at `path` holds.
    ///
    /// `read` is the file's whole text, or the step at which reading it
    /// failed. There is no fallback: a failed read is [`StoreError::Io`], a
    /// text that does not decode is [`StoreError::Decode`]. Later writes are
    /// compact.
    pub fn from_file(path: &str, read: Result<String, IoFailure>) -> (r: Result<Self, StoreError>)
        ensures
            Self::opens(path@, read, false, r),
    {
        Self::from_file_inner(path, read, false)
    }

    /// As [`Mvdb::from_file`], with later writes indented. The file need not
    /// be indented when it is read.
    pub fn from_file_pretty(path: &str, read: Result<String, IoFailure>) -> (r: Result<
        Self,
        StoreError,
    >)
        ensures
            Self::opens(path@, read, true, r),
    {
        Self::from_file_inner(path, read, true)
    }

    /// Whether `r` is what opening the file gives: a handle on a value that
    /// the decoder returned for the text that was read, or the failure of
    /// the read or of the decoder.
    pub open spec fn opens(
        path: Seq<char>,
        read: Result<String, IoFailure>,
        pretty: bool,
        r: Result<Self, StoreError>,
    ) -> bool {
        match read {
            Err(step) => r matches Err(e) && e == StoreError::Io(step),
            Ok(text) => match r {
                Ok(db) => db@ == (Settings { path, pretty }) && db.holds_decoded(text@),
                Err(e) => decoding_fails::<T>(text@, e),
            },
        }
    }

    /// Whether the handle's lock was made around a value that the decoder
    /// returned for `text`.
    pub open spec fn holds_decoded(&self, text: Seq<char>) -> bool {
        exists|value: T|
            #![trigger self.started_from(value)]
            decoder_returns(text, Ok(value)) && self.started_from(value)
    }

    /// Encodes `data` and puts it behind a lock.
    fn new_inner(data: T, path: &str, pretty: bool) -> (r: Result<FirstWrite<T>, StoreError>)
        ensures
            Self::creates(data, path@, pretty, r),
    {
        match just_write(&data, pretty) {
            Ok(text) => Ok(
                FirstWrite { db: Self::new_no_write(data, path, pretty), text: Some(text) },
            ),
            Err(e) => Err(e),
        }
    }

    /// Decodes what was read and puts the value behind a lock.
    fn from_file_inner(path: &str, read: Result<String, IoFailure>, pretty: bool) -> (r: Result<
        Self,
        StoreError,
    >)
        ensures
            Self::opens(path@, read, pretty, r),
    {
        let ghost file = read;
        match just_load::<T>(read) {
            Ok(contents) => {
                let ghost value = contents;
                let db = Self::new_no_write(contents, path, pretty);
                proof {
                    assert(db.started_from(value));
                    assert(db.holds_decoded(file->Ok_0@));
                }
                Ok(db)
            },
            Err(e) => Err(e),
        }
    }

    /// A handle on `data` for which nothing has been encoded yet.
    fn new_no_write(data: T, path: &str, pretty: bool) -> (db: Self)
        ensures
            db@ == (Settings { path: path@, pretty }),
            db.started_from(data),
    {
        Mvdb { inner: Arc::new(Mutex::new(data)), file_path: path.to_owned(), pretty }
    }

    /// Calls `action` on the value, under the lock, and returns what it
    /// returned. The value is read in memory: nothing is decoded, and
    /// nothing is asked to be written.
    ///
    /// Fails with [`StoreError::Lock`] where the lock is poisoned. `action`
    /// must not use a handle on the same value: the lock is held while it
    /// runs, and is not taken twice by one thread.
    pub fn access<F, R>(&self, action: F) -> (r: Result<R, StoreError>)
        where F: Fn(&T) -> R
        requires
            forall|value: &T| self.shows(*value) ==> call_requires(action, (value,)),
        ensures
            match r {
                Ok(ret) => self.reads(action, ret),
                Err(e) => e is Lock && self.poisoned(),
            },
    {
        let x = match self.lock() {
            Ok(held) => held,
            Err(e) => {
                return Err(e);
            },
        };
        let y = x.deref();
        proof {
            assert(self.shows(*y));
        }
        let ret = action(y);
        Ok(ret)
    }

    /// Calls `action` on the value, under the lock, and keeps the lock
    /// until the returned [`WriteBack`] is finished. The write-back asks
    /// for a write exactly if the value's encoding after the call differs
    /// from the one before it, and the text it asks to be written is the
    /// encoding after the call.
    ///
    /// Fails with [`StoreError::Lock`] where the lock is poisoned, and with
    /// [`StoreError::Encode`] where the value cannot be encoded, before the
    /// call or after it. After a failure the value is as `action` left it,
    /// if it ran. `action` must not use a handle on the same value, and no
    /// such handle is to be used by this thread before the write-back is
    /// finished: the lock is not taken twice by one thread.
    pub fn access_mut<'a, F, R>(&'a self, action: F) -> (r: Result<WriteBack<'a, T, R>, StoreError>)
        where F: FnOnce(&mut T) -> R
        requires
            forall|value: &mut T| self.shows(*value) ==> call_requires(action, (value,)),
        ensures
            match r {
                Ok(back) => exists|place: &mut T, value: &mut T, ret: R|
                    #![trigger self.lends(place), call_ensures(action, (value,), ret)]
                    self.lends(place) && *place == *value && *final(place) == *final(value)
                        && ret == back.result() && call_ensures(action, (value,), ret)
                        && settles(*value, *final(value), self@.pretty, back.pending()),
                Err(e) => (e is Lock && self.poisoned())
                    || (exists|place: &mut T|
                        #[trigger] self.lends(place) && *final(place) == *place
                            && encoding_fails(*place, self@.pretty, e))
                    || (exists|place: &mut T, value: &mut T, ret: R|
                        #![trigger self.lends(place), call_ensures(action, (value,), ret)]
                        self.lends(place) && *place == *value && *final(place) == *final(value)
                            && call_ensures(action, (value,), ret)
                            && encoding_fails(*final(value), self@.pretty, e)),
            },
    {
        let mut x = match self.lock() {
            Ok(held) => held,
            Err(e) => {
                return Err(e);
            },
        };
        let y = x.deref_mut();
        let ghost place = y;
        proof {
            assert(self.shows(*y));
            assert(self.lends(place));
        }
        let outcome = apply_mutation(y, self.pretty, action);
        proof {
            assert(*final(place) == *final(y));
        }
        match outcome {
            Ok(done) => Ok(WriteBack { held: x, ret: done.0, text: done.1 }),
            Err(e) => Err(e),
        }
    }

    /// The guard of the lock, or [`StoreError::Lock`] where it is poisoned.
    fn lock(&self) -> (r: Result<MutexGuard<'_, T>, StoreError>)
        ensures
            match r {
                Ok(held) => call_ensures(Mutex::<T>::lock, (&*self.inner,), Ok(held)),
                Err(e) => e is Lock && self.poisoned(),
            },
    {
        match self.inner.lock() {
            Err(_) => Err(StoreError::Lock),
            Ok(lock) => Ok(lock),
        }
    }
}

impl<T> Mvdb<T> where T: serde::Serialize + serde::de::DeserializeOwned + Default {
    /// Makes a handle on the value that the file at `path` holds, or on
    /// `T::default()` where there is no such value.
    ///
    /// `read` is the file's whole text, or the step at which reading it
    /// failed. A failed read and a text that does not decode are treated
    /// alike: the handle starts from the default, and the returned
    /// [`FirstWrite`] holds the default's compact encoding, to be written
    /// before the handle is used. Where the file was loaded, nothing is to
    /// be written. Only a default that cannot be encoded makes the call
    /// fail.
    pub fn from_file_or_default(path: &str, read: Result<String, IoFailure>) -> (r: Result<
        FirstWrite<T>,
        StoreError,
    >)
        ensures
            Self::opens_or_seeds(path@, read, false, r),
    {
        Self::from_file_or_default_inner(path, read, false)
    }

    /// As [`Mvdb::from_file_or_default`], with indented text.
    pub fn from_file_or_default_pretty(path: &str, read: Result<String, IoFailure>) -> (r: Result<
        FirstWrite<T>,
        StoreError,
    >)
        ensures
            Self::opens_or_seeds(path@, read, true, r),
    {
        Self::from_file_or_default_inner(path, read, true)
    }

    /// Whether `r` is what opening the file with a fallback gives.
    ///
    /// With nothing to write, the handle is on a value that the decoder
    /// returned for the text that was read. With a text to write, the read
    /// or the decoder failed, the handle is on a default value, and the
    /// text is its encoding. A failure is that of encoding a default value,
    /// after the read or the decoder failed.
    pub open spec fn opens_or_seeds(
        path: Seq<char>,
        read: Result<String, IoFailure>,
        pretty: bool,
        r: Result<FirstWrite<T>, StoreError>,
    ) -> bool {
        match r {
            Ok(first) => first.handle()@ == (Settings { path, pretty })
                && match first.pending() {
                    None => read matches Ok(text) && first.handle().holds_decoded(text@),
                    Some(seed) => Self::load_fails(read)
                        && first.handle().holds_default(pretty, seed),
                },
            Err(e) => Self::load_fails(read) && Self::default_fails(pretty, e),
        }
    }

    /// Whether the handle's lock was made around a default value, and
    /// `seed` is the encoding of that value.
    pub open spec fn holds_default(&self, pretty: bool, seed: String) -> bool {
        exists|value: T|
            #![trigger self.started_from(value)]
            call_ensures(T::default, (), value) && self.started_from(value)
                && encoder_returns(value, pretty, Ok(seed))
    }

    /// Whether `e` is the failure of the encoder on a default value.
    pub open spec fn default_fails(pretty: bool, e: StoreError) -> bool {
        exists|value: T| #[trigger]
            call_ensures(T::default, (), value) && encoding_fails(value, pretty, e)
    }

    /// Whether the file could not be read, or the decoder failed on its
    /// text.
    pub open spec fn load_fails(read: Result<String, IoFailure>) -> bool {
        match read {
            Err(_) => true,
            Ok(text) => exists|cause: serde_json::Error| #[trigger]
                decoder_returns::<T>(text@, Err(cause)),
        }
    }

    /// Loads or seeds the value and puts it behind a lock.
    fn from_file_or_default_inner(path: &str, read: Result<String, IoFailure>, pretty: bool) -> (r:
        Result<FirstWrite<T>, StoreError>)
        ensures
            Self::opens_or_seeds(path@, read, pretty, r),
    {
        let ghost file = read;
        let loaded = just_load::<T>(read);
        proof {
            if loaded is Err {
                if file is Ok {
                    assert(decoder_returns::<T>(file->Ok_0@, Err(loaded->Err_0->Decode_0)));
                }
                assert(Self::load_fails(file));
            }
        }
        match loaded_or_default(loaded, pretty) {
            Ok(start) => {
                let ghost value = start.0;
                let db = Self::new_no_write(start.0, path, pretty);
                proof {
                    assert(db.started_from(value));
                    if start.1 is Some {
                        assert(db.holds_default(pretty, start.1->Some_0));
                    } else {
                        assert(db.holds_decoded(file->Ok_0@));
                    }
                }
                Ok(FirstWrite { db, text: start.1 })
            },
            Err(e) => {
                assert(Self::default_fails(pretty, e));
                Err(e)
            },
        }
    }
}

} // verus!
