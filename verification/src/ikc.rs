//! Primitive generic requests for intra-kernel communication.
//!
//! A transmit request holds the data to send and counts what has been pushed
//! into it, what has been popped out of it, and how much was requested; a
//! receive request holds room for the data to receive and counts the same.
//! Each request owns its buffer.

use vstd::prelude::*;

verus! {

/// The smaller of two lengths.
pub open spec fn min_len(a: nat, b: nat) -> nat {
    if a < b {
        a
    } else {
        b
    }
}

fn min_usize(a: usize, b: usize) -> (r: usize)
    ensures
        r == min_len(a as nat, b as nat),
{
    if a < b {
        a
    } else {
        b
    }
}

/// The contents of an optional buffer.
pub open spec fn buffer_view<T>(buffer: Option<Vec<T>>) -> Option<Seq<T>> {
    match buffer {
        Some(buffer) => Some(buffer@),
        None => None,
    }
}

/// A request from an application: a buffer shared by the application, the
/// length requested, and how much of it is still to be handled.
pub struct AppRequest<T: Copy> {
    pub slice: Option<Vec<T>>,
    length: usize,
    pub remaining: usize,
}

impl<T: Copy> AppRequest<T> {
    /// The contents of the shared buffer, if there is one.
    pub closed spec fn spec_slice(self) -> Option<Seq<T>> {
        buffer_view(self.slice)
    }

    /// The length requested.
    pub closed spec fn spec_len(self) -> nat {
        self.length as nat
    }

    /// How much of the request is still to be handled.
    pub closed spec fn spec_remaining(self) -> nat {
        self.remaining as nat
    }

    /// A request over `slice`, with nothing requested yet.
    pub fn new(slice: Option<Vec<T>>) -> (r: Self)
        ensures
            r.spec_slice() == buffer_view(slice),
            r.spec_len() == 0,
            r.spec_remaining() == 0,
    {
        AppRequest { slice, length: 0, remaining: 0 }
    }

    /// Requests `len` elements, no more than the shared buffer holds; all of
    /// them remain to be handled.
    pub fn set_len(&mut self, len: usize)
        ensures
            final(self).spec_slice() == old(self).spec_slice(),
            final(self).spec_len() == match old(self).spec_slice() {
                Some(buf) => min_len(len as nat, buf.len()),
                None => len as nat,
            },
            final(self).spec_remaining() == final(self).spec_len(),
    {
        let mut length: usize = len;
        if let Some(ref buf) = self.slice {
            length = min_usize(length, buf.len());
        }
        self.length = length;
        self.remaining = length;
    }

    pub fn len(&self) -> (r: usize)
        ensures
            r == self.spec_len(),
    {
        self.length
    }

    /// Writes `element` at the next position of the shared buffer, if there is one.
    pub fn push(&mut self, element: T)
        requires
            old(self).spec_slice() is Some ==> {
                &&& 0 < old(self).spec_remaining() <= old(self).spec_len()
                &&& old(self).spec_len() - old(self).spec_remaining() < old(self).spec_slice()->0.len()
            },
        ensures
            final(self).spec_len() == old(self).spec_len(),
            match old(self).spec_slice() {
                Some(buf) => {
                    &&& final(self).spec_slice() == Some(
                        buf.update(old(self).spec_len() - old(self).spec_remaining(), element),
                    )
                    &&& final(self).spec_remaining() == old(self).spec_remaining() - 1
                },
                None => final(self).spec_slice() is None && final(self).spec_remaining()
                    == old(self).spec_remaining(),
            },
    {
        if let Some(ref mut buf) = self.slice {
            let offset: usize = self.length - self.remaining;
            buf.set(offset, element);
            self.remaining = self.remaining - 1;
        }
    }
}

impl<T: Copy> Default for AppRequest<T> {
    fn default() -> (r: Self)
        ensures
            r.spec_slice() is None,
            r.spec_len() == 0,
            r.spec_remaining() == 0,
    {
        AppRequest { slice: None, length: 0, remaining: 0 }
    }
}


/// The buffer of a transmit request: none, data that may only be read, or
/// room that the client fills.
pub enum TxBuf<T: Copy> {
    NONE,
    CONST(Vec<T>),
    MUT(Vec<T>),
}

/// The buffer of a receive request: none, or room that the host fills.
pub enum RxBuf<T: Copy> {
    NONE,
    MUT(Vec<T>),
}

impl<T: Copy> Default for RxBuf<T> {
    fn default() -> (r: Self)
        ensures
            r is NONE,
    {
        RxBuf::NONE
    }
}

impl<T: Copy> Default for TxBuf<T> {
    fn default() -> (r: Self)
        ensures
            r is NONE,
    {
        TxBuf::NONE
    }
}

/// The length of a transmit buffer, zero when there is none.
pub open spec fn tx_buf_len<T: Copy>(buf: TxBuf<T>) -> nat {
    match buf {
        TxBuf::NONE => 0,
        TxBuf::CONST(b) => b@.len(),
        TxBuf::MUT(b) => b@.len(),
    }
}

/// The contents of a transmit buffer, empty when there is none.
pub open spec fn tx_buf_contents<T: Copy>(buf: TxBuf<T>) -> Seq<T> {
    match buf {
        TxBuf::NONE => Seq::empty(),
        TxBuf::CONST(b) => b@,
        TxBuf::MUT(b) => b@,
    }
}

/// The identifier given to a request that no client owns yet.
pub const UNOWNED_CLIENT: usize = 0xFF;

/// A request to transmit data.
pub struct TxRequest<T: Copy> {
    buf: TxBuf<T>,
    // The total amount of data written in
    pushed: usize,
    // The total amount of data read out
    popped: usize,
    // The total size of the request
    requested: usize,
    // Identifier to route response to owner
    pub client_id: usize,
}

/// A request to receive data.
pub struct RxRequest<T: Copy> {
    pub buf: RxBuf<T>,
    // The total amount of data written in
    pushed: usize,
    // The total amount of data read out
    popped: usize,
    // The total size of the request
    requested: usize,
    // Identifier to route response to owner
    pub client_id: usize,
}

/// A request of either direction.
pub enum Request<T: Copy> {
    TX(TxRequest<T>),
    RX(RxRequest<T>),
}

/// Whether a driver is serving a request.
#[derive(Copy, Clone, Debug, PartialEq, Eq, Structural)]
pub enum DriverState {
    BUSY,
    IDLE,
}

impl<T: Copy> TxRequest<T> {
    pub closed spec fn spec_buf(self) -> TxBuf<T> {
        self.buf
    }

    pub closed spec fn spec_pushed(self) -> nat {
        self.pushed as nat
    }

    pub closed spec fn spec_popped(self) -> nat {
        self.popped as nat
    }

    pub closed spec fn spec_requested(self) -> nat {
        self.requested as nat
    }

    pub closed spec fn spec_client_id(self) -> usize {
        self.client_id
    }

    /// Reads the next element to transmit, if there is a buffer, and counts
    /// it as popped.
    pub fn pop(&mut self) -> (r: Option<T>)
        requires
            !(old(self).spec_buf() is NONE) ==> old(self).spec_popped() < tx_buf_len(old(self).spec_buf()),
            old(self).spec_popped() < usize::MAX,
        ensures
            r == if old(self).spec_buf() is NONE {
                None
            } else {
                Some(tx_buf_contents(old(self).spec_buf())[old(self).spec_popped() as int])
            },
            final(self).spec_popped() == old(self).spec_popped() + 1,
            final(self).spec_buf() == old(self).spec_buf(),
            final(self).spec_pushed() == old(self).spec_pushed(),
            final(self).spec_requested() == old(self).spec_requested(),
            final(self).spec_client_id() == old(self).spec_client_id(),
    {
        let ret = match &self.buf {
            TxBuf::CONST(s) => Some(s[self.popped]),
            TxBuf::MUT(s) => Some(s[self.popped]),
            TxBuf::NONE => None,
        };
        self.popped = self.popped + 1;
        ret
    }

    /// Appends an element to a buffer the client fills, and grows the request by one.
    pub fn push(&mut self, element: T)
        requires
            old(self).spec_buf() is MUT,
            old(self).spec_pushed() < tx_buf_len(old(self).spec_buf()),
            old(self).spec_requested() < usize::MAX,
        ensures
            final(self).spec_buf() is MUT,
            tx_buf_contents(final(self).spec_buf()) == tx_buf_contents(old(self).spec_buf()).update(
                old(self).spec_pushed() as int,
                element,
            ),
            final(self).spec_pushed() == old(self).spec_pushed() + 1,
            final(self).spec_requested() == old(self).spec_requested() + 1,
            final(self).spec_popped() == old(self).spec_popped(),
            final(self).spec_client_id() == old(self).spec_client_id(),
    {
        let position: usize = self.pushed;
        let requested: usize = self.requested;
        match &mut self.buf {
            TxBuf::MUT(buf) => {
                let length: usize = buf.len();
                assert(position < length);
                buf.set(position, element);
            },
            _ => {},
        }
        self.pushed = position + 1;
        self.requested = requested + 1;
    }

    /// Copies, from the part of the application's request not yet handled,
    /// as much as the buffer holds, and makes that the request.
    pub fn copy_from_app_request(&mut self, app_request: &mut AppRequest<T>)
        requires
            old(self).spec_buf() is MUT,
            old(app_request).spec_remaining() <= old(app_request).spec_len(),
            old(app_request).spec_slice() matches Some(slice) ==> old(app_request).spec_len() <= slice.len(),
        ensures
            final(self).spec_buf() is MUT,
            final(self).spec_client_id() == old(self).spec_client_id(),
            final(app_request).spec_slice() == old(app_request).spec_slice(),
            final(app_request).spec_len() == old(app_request).spec_len(),
            match old(app_request).spec_slice() {
                Some(slice) => {
                    let count = min_len(tx_buf_len(old(self).spec_buf()), old(app_request).spec_remaining());
                    let offset = old(app_request).spec_len() - old(app_request).spec_remaining();
                    &&& tx_buf_len(final(self).spec_buf()) == tx_buf_len(old(self).spec_buf())
                    &&& forall|i: int| 0 <= i < tx_buf_len(old(self).spec_buf()) ==> #[trigger] tx_buf_contents(final(self).spec_buf())[i]
                        == if i < count { slice[i + offset] } else { tx_buf_contents(old(self).spec_buf())[i] }
                    &&& final(self).spec_popped() == 0
                    &&& final(self).spec_pushed() == count
                    &&& final(self).spec_requested() == count
                    &&& final(app_request).spec_remaining() == old(app_request).spec_remaining() - count
                },
                None => {
                    &&& final(self).spec_buf() == old(self).spec_buf()
                    &&& final(self).spec_popped() == old(self).spec_popped()
                    &&& final(self).spec_pushed() == old(self).spec_pushed()
                    &&& final(self).spec_requested() == old(self).spec_requested()
                    &&& final(app_request).spec_remaining() == 0
                },
            },
    {
        match &mut self.buf {
            TxBuf::MUT(buf) => {
                let num_elements: usize = min_usize(buf.len(), app_request.remaining);
                let offset: usize = app_request.length - app_request.remaining;
                if let Some(ref slice) = app_request.slice {
                    let ghost before = buf@;
                    let mut i: usize = 0;
                    while i < num_elements
                        invariant
                            i <= num_elements,
                            num_elements <= buf@.len(),
                            num_elements <= app_request.remaining,
                            offset + app_request.remaining == app_request.length,
                            app_request.length <= slice@.len(),
                            buf@.len() == before.len(),
                            forall|k: int| 0 <= k < before.len() ==> #[trigger] buf@[k]
                                == if k < i { slice@[k + offset] } else { before[k] },
                        decreases num_elements - i,
                    {
                        buf.set(i, slice[i + offset]);
                        i = i + 1;
                    }
                    self.popped = 0;
                    self.pushed = num_elements;
                    self.requested = num_elements;
                    app_request.remaining = app_request.remaining - num_elements;
                } else {
                    app_request.remaining = 0;
                }
            },
            _ => {},
        }
    }

    /// Some pushed element has not been popped yet.
    pub fn has_some(&self) -> (r: bool)
        ensures
            r == (self.spec_popped() < self.spec_pushed()),
    {
        self.popped < self.pushed
    }

    pub fn requested_length(&self) -> (r: usize)
        ensures
            r == self.spec_requested(),
    {
        self.requested
    }

    /// How much of the request is still to be popped.
    pub fn remaining_request(&self) -> (r: usize)
        requires
            self.spec_popped() <= self.spec_requested(),
        ensures
            r == self.spec_requested() - self.spec_popped(),
    {
        self.requested - self.popped
    }

    pub fn has_request_remaining(&self) -> (r: bool)
        ensures
            r == (self.spec_popped() < self.spec_requested()),
    {
        self.popped < self.requested
    }

    pub fn request_completed(&self) -> (r: bool)
        ensures
            r == (self.spec_popped() >= self.spec_requested()),
    {
        self.popped >= self.requested
    }

    /// A buffer the client fills has room for another element.
    pub fn has_room(&self) -> (r: bool)
        ensures
            r == (self.spec_buf() is MUT && self.spec_pushed() < tx_buf_len(self.spec_buf())),
    {
        match &self.buf {
            TxBuf::MUT(buf) => self.pushed < buf.len(),
            _ => false,
        }
    }

    /// How many more elements the client can push.
    pub fn room_available(&self) -> (r: usize)
        requires
            self.spec_buf() is MUT ==> self.spec_pushed() <= tx_buf_len(self.spec_buf()),
        ensures
            r == if self.spec_buf() is MUT {
                tx_buf_len(self.spec_buf()) - self.spec_pushed()
            } else {
                0
            },
    {
        match &self.buf {
            TxBuf::MUT(buf) => buf.len() - self.pushed,
            _ => 0,
        }
    }

    /// Starts over: nothing pushed or popped; a constant buffer is requested
    /// whole, a buffer the client fills is requested empty.
    pub fn reset(&mut self)
        ensures
            final(self).spec_buf() == old(self).spec_buf(),
            final(self).spec_client_id() == old(self).spec_client_id(),
            final(self).spec_pushed() == 0,
            final(self).spec_popped() == 0,
            final(self).spec_requested() == match old(self).spec_buf() {
                TxBuf::MUT(_) => 0,
                TxBuf::CONST(b) => b@.len(),
                TxBuf::NONE => old(self).spec_requested(),
            },
    {
        self.pushed = 0;
        self.popped = 0;
        match &self.buf {
            TxBuf::MUT(_buf) => self.requested = 0,
            TxBuf::CONST(buf) => self.requested = buf.len(),
            TxBuf::NONE => {},
        }
    }

    /// Transmits the whole of a constant buffer.
    pub fn set_with_const_ref(&mut self, buf: Vec<T>)
        ensures
            final(self).spec_buf() == TxBuf::CONST(buf),
            final(self).spec_pushed() == buf@.len(),
            final(self).spec_requested() == buf@.len(),
            final(self).spec_popped() == 0,
            final(self).spec_client_id() == old(self).spec_client_id(),
    {
        self.pushed = buf.len();
        self.requested = buf.len();
        self.buf = TxBuf::CONST(buf);
        self.popped = 0;
    }

    /// Transmits a buffer that the client fills; it starts empty.
    pub fn set_with_mut_ref(&mut self, buf: Vec<T>)
        ensures
            final(self).spec_buf() == TxBuf::MUT(buf),
            final(self).spec_pushed() == 0,
            final(self).spec_requested() == 0,
            final(self).spec_popped() == 0,
            final(self).spec_client_id() == old(self).spec_client_id(),
    {
        self.buf = TxBuf::MUT(buf);
        self.pushed = 0;
        self.popped = 0;
        self.requested = 0;
    }

    /// An empty request with no buffer and no owner.
    pub fn new() -> (r: Self)
        ensures
            r.spec_buf() is NONE,
            r.spec_pushed() == 0,
            r.spec_popped() == 0,
            r.spec_requested() == 0,
            r.spec_client_id() == UNOWNED_CLIENT,
    {
        TxRequest { buf: TxBuf::NONE, pushed: 0, popped: 0, requested: 0, client_id: UNOWNED_CLIENT }
    }

    /// A request to transmit the whole of a constant buffer.
    pub fn new_with_const_ref(buf: Vec<T>) -> (r: Self)
        ensures
            r.spec_buf() == TxBuf::CONST(buf),
            r.spec_pushed() == buf@.len(),
            r.spec_popped() == 0,
            r.spec_requested() == buf@.len(),
            r.spec_client_id() == UNOWNED_CLIENT,
    {
        let length: usize = buf.len();
        Self::new_with_ref_set_len(TxBuf::CONST(buf), length)
    }

    /// A request over a buffer that the client fills; it starts empty.
    pub fn new_with_mut_ref(buf: Vec<T>) -> (r: Self)
        ensures
            r.spec_buf() == TxBuf::MUT(buf),
            r.spec_pushed() == 0,
            r.spec_popped() == 0,
            r.spec_requested() == 0,
            r.spec_client_id() == UNOWNED_CLIENT,
    {
        let length: usize = buf.len();
        Self::new_with_ref_set_len(TxBuf::MUT(buf), length)
    }

    /// Sets the length requested, no more than the buffer holds.
    pub fn set_request_len(&mut self, length: usize)
        ensures
            final(self).spec_buf() == old(self).spec_buf(),
            final(self).spec_pushed() == old(self).spec_pushed(),
            final(self).spec_popped() == old(self).spec_popped(),
            final(self).spec_client_id() == old(self).spec_client_id(),
            final(self).spec_requested() == if old(self).spec_buf() is NONE {
                old(self).spec_requested()
            } else {
                min_len(length as nat, tx_buf_len(old(self).spec_buf()))
            },
    {
        match &self.buf {
            TxBuf::MUT(buf) => self.requested = min_usize(length, buf.len()),
            TxBuf::CONST(buf) => self.requested = min_usize(length, buf.len()),
            TxBuf::NONE => {},
        }
    }

    /// A request over `buf`: a constant buffer counts `length` elements as
    /// pushed and requested; any other buffer starts empty.
    pub fn new_with_ref_set_len(buf: TxBuf<T>, length: usize) -> (r: Self)
        ensures
            r.spec_buf() == buf,
            r.spec_popped() == 0,
            r.spec_client_id() == UNOWNED_CLIENT,
            r.spec_pushed() == if buf is CONST { length as nat } else { 0 },
            r.spec_requested() == if buf is CONST { length as nat } else { 0 },
    {
        match buf {
            TxBuf::CONST(b) => TxRequest {
                buf: TxBuf::CONST(b),
                pushed: length,
                requested: length,
                popped: 0,
                client_id: UNOWNED_CLIENT,
            },
            TxBuf::MUT(b) => TxRequest {
                buf: TxBuf::MUT(b),
                pushed: 0,
                popped: 0,
                requested: 0,
                client_id: UNOWNED_CLIENT,
            },
            TxBuf::NONE => TxRequest {
                buf: TxBuf::NONE,
                pushed: 0,
                popped: 0,
                requested: 0,
                client_id: UNOWNED_CLIENT,
            },
        }
    }
}

impl<T: Copy> Default for TxRequest<T> {
    fn default() -> (r: Self)
        ensures
            r.spec_buf() is NONE,
            r.spec_pushed() == 0,
            r.spec_popped() == 0,
            r.spec_requested() == 0,
            r.spec_client_id() == 0,
    {
        TxRequest { buf: TxBuf::NONE, pushed: 0, popped: 0, requested: 0, client_id: 0 }
    }
}


/// The length of a receive buffer, zero when there is none.
pub open spec fn rx_buf_len<T: Copy>(buf: RxBuf<T>) -> nat {
    match buf {
        RxBuf::NONE => 0,
        RxBuf::MUT(b) => b@.len(),
    }
}

/// The contents of a receive buffer, empty when there is none.
pub open spec fn rx_buf_contents<T: Copy>(buf: RxBuf<T>) -> Seq<T> {
    match buf {
        RxBuf::NONE => Seq::empty(),
        RxBuf::MUT(b) => b@,
    }
}

impl<T: Copy> RxRequest<T> {
    pub closed spec fn spec_buf(self) -> RxBuf<T> {
        self.buf
    }

    pub closed spec fn spec_pushed(self) -> nat {
        self.pushed as nat
    }

    pub closed spec fn spec_popped(self) -> nat {
        self.popped as nat
    }

    pub closed spec fn spec_requested(self) -> nat {
        self.requested as nat
    }

    pub closed spec fn spec_client_id(self) -> usize {
        self.client_id
    }

    /// An empty request with no buffer and no owner.
    pub fn new() -> (r: Self)
        ensures
            r.spec_buf() is NONE,
            r.spec_pushed() == 0,
            r.spec_popped() == 0,
            r.spec_requested() == 0,
            r.spec_client_id() == UNOWNED_CLIENT,
    {
        RxRequest { buf: RxBuf::NONE, pushed: 0, popped: 0, requested: 0, client_id: UNOWNED_CLIENT }
    }

    /// Requests as much of what the application still expects as the buffer
    /// holds, if the application shared a buffer.
    pub fn initialize_from_app_request(&mut self, app_request: &mut AppRequest<T>)
        requires
            old(self).spec_buf() is MUT,
        ensures
            *final(app_request) == *old(app_request),
            final(self).spec_buf() == old(self).spec_buf(),
            final(self).spec_pushed() == old(self).spec_pushed(),
            final(self).spec_popped() == old(self).spec_popped(),
            final(self).spec_client_id() == old(self).spec_client_id(),
            final(self).spec_requested() == if old(app_request).spec_slice() is Some {
                min_len(rx_buf_len(old(self).spec_buf()), old(app_request).spec_remaining())
            } else {
                old(self).spec_requested()
            },
    {
        match &self.buf {
            RxBuf::MUT(buf) => {
                let num_elements: usize = min_usize(buf.len(), app_request.remaining);
                if let Some(ref _slice) = app_request.slice {
                    self.requested = num_elements;
                }
            },
            _ => {},
        }
    }

    pub fn requested_length(&self) -> (r: usize)
        ensures
            r == self.spec_requested(),
    {
        self.requested
    }

    /// A request to fill the whole of `buf`.
    pub fn new_with_mut_ref(buf: Vec<T>) -> (r: Self)
        ensures
            r.spec_buf() == RxBuf::MUT(buf),
            r.spec_requested() == buf@.len(),
            r.spec_pushed() == 0,
            r.spec_popped() == 0,
            r.spec_client_id() == UNOWNED_CLIENT,
    {
        RxRequest { requested: buf.len(), buf: RxBuf::MUT(buf), pushed: 0, popped: 0, client_id: UNOWNED_CLIENT }
    }

    /// Receives into `buf`, which the host is to fill whole.
    pub fn set_buf(&mut self, buf: Vec<T>)
        ensures
            final(self).spec_buf() == RxBuf::MUT(buf),
            final(self).spec_requested() == buf@.len(),
            final(self).spec_pushed() == 0,
            final(self).spec_popped() == 0,
            final(self).spec_client_id() == old(self).spec_client_id(),
    {
        self.requested = buf.len();
        self.buf = RxBuf::MUT(buf);
        self.pushed = 0;
        self.popped = 0;
    }

    /// Starts over: nothing pushed or popped, the whole buffer requested.
    pub fn reset(&mut self)
        ensures
            final(self).spec_buf() == old(self).spec_buf(),
            final(self).spec_client_id() == old(self).spec_client_id(),
            final(self).spec_pushed() == 0,
            final(self).spec_popped() == 0,
            final(self).spec_requested() == rx_buf_len(old(self).spec_buf()),
    {
        self.pushed = 0;
        self.popped = 0;
        match &self.buf {
            RxBuf::MUT(buf) => self.requested = buf.len(),
            RxBuf::NONE => self.requested = 0,
        }
    }

    /// The host has pushed enough data to fulfill the request.
    pub fn request_completed(&self) -> (r: bool)
        ensures
            r == (self.spec_pushed() >= self.spec_requested()),
    {
        self.pushed >= self.requested
    }

    /// How much data has been pushed.
    pub fn items_pushed(&self) -> (r: usize)
        ensures
            r == self.spec_pushed(),
    {
        self.pushed
    }

    /// How much of the request the host has still to push.
    pub fn request_remaining(&self) -> (r: usize)
        requires
            self.spec_pushed() <= self.spec_requested(),
        ensures
            r == self.spec_requested() - self.spec_pushed(),
    {
        self.requested - self.pushed
    }

    /// The buffer has room for another element.
    pub fn has_room(&self) -> (r: bool)
        ensures
            r == (self.spec_buf() is MUT && self.spec_pushed() < rx_buf_len(self.spec_buf())),
    {
        match &self.buf {
            RxBuf::MUT(buf) => self.pushed < buf.len(),
            RxBuf::NONE => false,
        }
    }

    /// Stores the next received element, if there is a buffer, and counts it as pushed.
    pub fn push(&mut self, element: T)
        requires
            old(self).spec_buf() is MUT ==> old(self).spec_pushed() < rx_buf_len(old(self).spec_buf()),
            old(self).spec_pushed() < usize::MAX,
        ensures
            final(self).spec_buf() is MUT <==> old(self).spec_buf() is MUT,
            rx_buf_contents(final(self).spec_buf()) == if old(self).spec_buf() is MUT {
                rx_buf_contents(old(self).spec_buf()).update(old(self).spec_pushed() as int, element)
            } else {
                rx_buf_contents(old(self).spec_buf())
            },
            final(self).spec_pushed() == old(self).spec_pushed() + 1,
            final(self).spec_popped() == old(self).spec_popped(),
            final(self).spec_requested() == old(self).spec_requested(),
            final(self).spec_client_id() == old(self).spec_client_id(),
    {
        let position: usize = self.pushed;
        match &mut self.buf {
            RxBuf::MUT(buf) => {
                buf.set(position, element);
            },
            RxBuf::NONE => {},
        }
        self.pushed = position + 1;
    }

    /// Reads the next received element, if there is a buffer, and counts it as popped.
    pub fn pop(&mut self) -> (r: Option<T>)
        requires
            old(self).spec_buf() is MUT ==> old(self).spec_popped() < rx_buf_len(old(self).spec_buf()),
            old(self).spec_popped() < usize::MAX,
        ensures
            r == if old(self).spec_buf() is MUT {
                Some(rx_buf_contents(old(self).spec_buf())[old(self).spec_popped() as int])
            } else {
                None
            },
            final(self).spec_popped() == old(self).spec_popped() + 1,
            final(self).spec_buf() == old(self).spec_buf(),
            final(self).spec_pushed() == old(self).spec_pushed(),
            final(self).spec_requested() == old(self).spec_requested(),
            final(self).spec_client_id() == old(self).spec_client_id(),
    {
        let ret = match &self.buf {
            RxBuf::MUT(s) => Some(s[self.popped]),
            RxBuf::NONE => None,
        };
        self.popped = self.popped + 1;
        ret
    }
}

impl<T: Copy> Default for RxRequest<T> {
    fn default() -> (r: Self)
        ensures
            r.spec_buf() is NONE,
            r.spec_pushed() == 0,
            r.spec_popped() == 0,
            r.spec_requested() == 0,
            r.spec_client_id() == 0,
    {
        RxRequest { buf: RxBuf::NONE, pushed: 0, popped: 0, requested: 0, client_id: 0 }
    }
}


/// What is pushed into a transmit request is what is popped from it: an
/// element pushed at the position where popping stands is the element that
/// the next pop reads.
pub proof fn lemma_pop_reads_what_was_pushed<T: Copy>(
    before: TxRequest<T>,
    after: TxRequest<T>,
    element: T,
)
    requires
        before.spec_pushed() < tx_buf_len(before.spec_buf()),
        tx_buf_contents(after.spec_buf()) == tx_buf_contents(before.spec_buf()).update(
            before.spec_pushed() as int,
            element,
        ),
        after.spec_popped() == before.spec_pushed(),
    ensures
        tx_buf_contents(after.spec_buf())[after.spec_popped() as int] == element,
{
}

} // verus!
