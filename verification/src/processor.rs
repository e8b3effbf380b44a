use vstd::prelude::*;
use vstd::utf8::{decode_utf8, valid_utf8};
use smol_str::SmolStr;

use crate::buffer::SentencePieceBuffer;
use crate::error::SentencePieceError;
use crate::text::{smol_chars, smol_from_str, utf8_to_str};

verus! {

/// Largest vocabulary size whose ids all fit in sixteen bits.
pub const MAX_VOCAB_16: i32 = 0x10000;

/// The safe façade over one loaded engine model.
///
/// The engine itself lives behind a process-foreign handle; what this type
/// holds is the per-model metadata the engine reports at load time, together
/// with the decision rules of the boundary protocol: which raw engine replies
/// become values and which become errors. Every operation borrows the façade
/// immutably and nothing here mutates shared state, so one instance may serve
/// any number of callers at once.
pub struct SentencePieceProcessor {
    unk: i32,
    bos: i32,
    eos: i32,
    pad: i32,
    num: i32,
}

/// The element sequence of an optional reply buffer; `None` stands for a
/// null reply pointer.
pub open spec fn opt_seq<T>(o: Option<Vec<T>>) -> Option<Seq<T>> {
    match o {
        Some(v) => Some(v@),
        None => None,
    }
}

/// The outcome a result carries, element sequences in place of buffers.
pub open spec fn outcome_view<T>(
    r: Result<SentencePieceBuffer<T>, SentencePieceError>,
) -> Result<Seq<T>, SentencePieceError> {
    match r {
        Ok(b) => Ok(b@),
        Err(e) => Err(e),
    }
}

/// What a decode operation returns, as a function of the request length and
/// the engine's reply alone: an empty request is answered empty without the
/// engine; a null reply buffer or a non-zero status is a failure carrying
/// the status; otherwise the reply bytes are the decoded text.
pub open spec fn decode_outcome(
    n_pieces: nat,
    status: i32,
    decoded: Option<Seq<u8>>,
) -> Result<Seq<u8>, SentencePieceError> {
    if n_pieces == 0 {
        Ok(Seq::empty())
    } else {
        match decoded {
            None => Err(SentencePieceError::Decode(status)),
            Some(bytes) => if status != 0 {
                Err(SentencePieceError::Decode(status))
            } else {
                Ok(bytes)
            },
        }
    }
}

/// What a thirty-two-bit encode returns, as a function of the request and
/// the engine's reply alone: empty text encodes to the empty id sequence
/// without the engine; a null reply buffer is an encode failure.
pub open spec fn encode_outcome(
    sentence: Seq<char>,
    encoded: Option<Seq<i32>>,
) -> Result<Seq<i32>, SentencePieceError> {
    if sentence.len() == 0 {
        Ok(Seq::empty())
    } else {
        match encoded {
            None => Err(SentencePieceError::Encode),
            Some(ids) => Ok(ids),
        }
    }
}

/// The ids of a sixteen-bit encode: the requested special tokens spliced
/// around the single segmentation, never a second segmentation pass.
pub open spec fn splice16(ids: Seq<u16>, prefix: Option<u16>, suffix: Option<u16>) -> Seq<u16> {
    let front = match prefix {
        Some(p) => seq![p],
        None => Seq::empty(),
    };
    let back = match suffix {
        Some(s) => seq![s],
        None => Seq::empty(),
    };
    front + ids + back
}

impl SentencePieceProcessor {
    /// The raw unknown id the engine reported at load time.
    pub closed spec fn unk_raw(self) -> i32 {
        self.unk
    }

    /// The raw begin-of-sequence id the engine reported; negative means absent.
    pub closed spec fn bos_raw(self) -> i32 {
        self.bos
    }

    /// The raw end-of-sequence id the engine reported; negative means absent.
    pub closed spec fn eos_raw(self) -> i32 {
        self.eos
    }

    /// The raw pad id the engine reported; negative means absent.
    pub closed spec fn pad_raw(self) -> i32 {
        self.pad
    }

    /// The raw vocabulary size the engine reported; negative means unavailable.
    pub closed spec fn num_raw(self) -> i32 {
        self.num
    }

    /// The engine's metadata contract for a loaded model: the unknown id is
    /// always present, and lies inside the vocabulary whenever the engine
    /// reports the vocabulary's size.
    pub open spec fn wf(self) -> bool {
        &&& self.unk_raw() >= 0
        &&& self.num_raw() >= 0 ==> self.unk_raw() < self.num_raw()
    }

    /// Whether every id of this vocabulary fits in sixteen bits, as far as
    /// the reported size shows; an unavailable size is not refused.
    pub open spec fn fits16(self) -> bool {
        self.num_raw() <= MAX_VOCAB_16
    }

    /// Builds the façade from the engine's load-time replies: whether a raw
    /// processor object was allocated, the status of deserializing the model
    /// bytes into it, and the metadata of the loaded model.
    ///
    /// Construction is all-or-nothing: a failed allocation or a non-zero
    /// parse status yields an error and no façade, so no partially loaded
    /// model is ever exposed. The metadata arguments matter only on success;
    /// they must then satisfy the engine's contract, which callers check
    /// before construction because its violation is fatal, not recoverable.
    pub fn from_model(
        handle_acquired: bool,
        parse_status: i32,
        unk: i32,
        bos: i32,
        eos: i32,
        pad: i32,
        num: i32,
    ) -> (r: Result<SentencePieceProcessor, SentencePieceError>)
        requires
            handle_acquired && parse_status == 0 ==> unk >= 0 && (num >= 0 ==> unk < num),
        ensures
            !handle_acquired ==> r == Err::<SentencePieceProcessor, SentencePieceError>(
                SentencePieceError::New,
            ),
            handle_acquired && parse_status != 0 ==> r == Err::<
                SentencePieceProcessor,
                SentencePieceError,
            >(SentencePieceError::Proto(parse_status)),
            handle_acquired && parse_status == 0 ==> (r matches Ok(p) && p.wf()
                && p.unk_raw() == unk && p.bos_raw() == bos && p.eos_raw() == eos
                && p.pad_raw() == pad && p.num_raw() == num),
    {
        if !handle_acquired {
            return Err(SentencePieceError::New);
        }
        if parse_status != 0 {
            return Err(SentencePieceError::Proto(parse_status));
        }
        Ok(SentencePieceProcessor { unk, bos, eos, pad, num })
    }

    /// The unknown id; the engine guarantees it non-negative for any loaded
    /// model.
    pub fn unk_id(&self) -> (r: i32)
        requires
            self.wf(),
        ensures
            r == self.unk_raw(),
            r >= 0,
    {
        self.unk
    }

    /// The unknown id, narrowed to sixteen bits.
    pub fn unk_tok16(&self) -> (r: u16)
        requires
            self.wf(),
            self.unk_raw() <= u16::MAX as i32,
        ensures
            r as i32 == self.unk_raw(),
    {
        self.unk as u16
    }

    /// The begin-of-sequence id, if the model defines one; the engine signals
    /// absence with a negative sentinel.
    pub fn bos_id(&self) -> (r: Option<i32>)
        requires
            self.wf(),
        ensures
            self.bos_raw() < 0 ==> r is None,
            self.bos_raw() >= 0 ==> r == Some(self.bos_raw()),
    {
        if self.bos < 0 {
            None
        } else {
            Some(self.bos)
        }
    }

    /// The begin-of-sequence id, narrowed to sixteen bits.
    pub fn bos_tok16(&self) -> (r: Option<u16>)
        requires
            self.wf(),
            self.bos_raw() >= 0 ==> self.bos_raw() <= u16::MAX as i32,
        ensures
            self.bos_raw() < 0 ==> r is None,
            self.bos_raw() >= 0 ==> (r matches Some(t) && t as i32 == self.bos_raw()),
    {
        match self.bos_id() {
            None => None,
            Some(t) => Some(t as u16),
        }
    }

    /// The end-of-sequence id, if the model defines one.
    pub fn eos_id(&self) -> (r: Option<i32>)
        requires
            self.wf(),
        ensures
            self.eos_raw() < 0 ==> r is None,
            self.eos_raw() >= 0 ==> r == Some(self.eos_raw()),
    {
        if self.eos < 0 {
            None
        } else {
            Some(self.eos)
        }
    }

    /// The end-of-sequence id, narrowed to sixteen bits.
    pub fn eos_tok16(&self) -> (r: Option<u16>)
        requires
            self.wf(),
            self.eos_raw() >= 0 ==> self.eos_raw() <= u16::MAX as i32,
        ensures
            self.eos_raw() < 0 ==> r is None,
            self.eos_raw() >= 0 ==> (r matches Some(t) && t as i32 == self.eos_raw()),
    {
        match self.eos_id() {
            None => None,
            Some(t) => Some(t as u16),
        }
    }

    /// The pad id, if the model defines one.
    pub fn pad_id(&self) -> (r: Option<i32>)
        requires
            self.wf(),
        ensures
            self.pad_raw() < 0 ==> r is None,
            self.pad_raw() >= 0 ==> r == Some(self.pad_raw()),
    {
        if self.pad < 0 {
            None
        } else {
            Some(self.pad)
        }
    }

    /// The pad id, narrowed to sixteen bits.
    pub fn pad_tok16(&self) -> (r: Option<u16>)
        requires
            self.wf(),
            self.pad_raw() >= 0 ==> self.pad_raw() <= u16::MAX as i32,
        ensures
            self.pad_raw() < 0 ==> r is None,
            self.pad_raw() >= 0 ==> (r matches Some(t) && t as i32 == self.pad_raw()),
    {
        match self.pad_id() {
            None => None,
            Some(t) => Some(t as u16),
        }
    }

    /// Whether the engine classified the given id as an unknown piece; `raw`
    /// is the engine's reply for `piece_id`, non-zero meaning unknown.
    pub fn is_unknown_id(&self, piece_id: i32, raw: i32) -> (r: bool)
        requires
            self.wf(),
        ensures
            r == (raw != 0),
    {
        raw != 0
    }

    /// The vocabulary size, if the engine reports one; a negative reply
    /// means the size is unavailable.
    pub fn num_pieces(&self) -> (r: Option<i32>)
        requires
            self.wf(),
        ensures
            self.num_raw() < 0 ==> r is None,
            self.num_raw() >= 0 ==> r == Some(self.num_raw()),
    {
        if self.num < 0 {
            None
        } else {
            Some(self.num)
        }
    }

    /// The vocabulary size as a machine length, if available.
    pub fn vocab_len(&self) -> (r: Option<usize>)
        requires
            self.wf(),
        ensures
            self.num_raw() < 0 ==> r is None,
            self.num_raw() >= 0 ==> r == Some(self.num_raw() as usize),
    {
        match self.num_pieces() {
            None => None,
            Some(n) => Some(n as usize),
        }
    }

    /// Turns the engine's reply for an id-to-piece lookup — the piece's
    /// bytes, already copied out of the handle-owned storage — into an
    /// independently owned string, validating that it is UTF-8.
    pub fn id_to_piece(&self, piece_id: i32, piece: Vec<u8>) -> (r: Result<
        SmolStr,
        SentencePieceError,
    >)
        requires
            self.wf(),
        ensures
            valid_utf8(piece@) ==> (r matches Ok(s) && smol_chars(s) == decode_utf8(piece@)),
            !valid_utf8(piece@) ==> r == Err::<SmolStr, SentencePieceError>(
                SentencePieceError::Utf8,
            ),
    {
        match utf8_to_str(&piece) {
            None => Err(SentencePieceError::Utf8),
            Some(s) => Ok(smol_from_str(s)),
        }
    }

    /// The sixteen-bit counterpart of `id_to_piece`.
    pub fn get16(&self, tok: u16, piece: Vec<u8>) -> (r: Result<SmolStr, SentencePieceError>)
        requires
            self.wf(),
        ensures
            valid_utf8(piece@) ==> (r matches Ok(s) && smol_chars(s) == decode_utf8(piece@)),
            !valid_utf8(piece@) ==> r == Err::<SmolStr, SentencePieceError>(
                SentencePieceError::Utf8,
            ),
    {
        self.id_to_piece(tok as i32, piece)
    }

    /// Relays the engine's answer for a piece lookup. The engine answers the
    /// unknown id for a piece absent from the vocabulary, so absence and "is
    /// the unknown piece" are indistinguishable by the id alone. The piece
    /// crosses the boundary as a NUL-terminated string, so it must not hold
    /// an interior NUL.
    pub fn piece_to_id(&self, piece: &str, raw_id: i32) -> (r: i32)
        requires
            self.wf(),
            forall|i: int| 0 <= i < piece@.len() ==> piece@[i] != '\0',
        ensures
            r == raw_id,
    {
        raw_id
    }

    /// Decode: turns the engine's reply for the given id sequence into text
    /// bytes. `status` and `decoded` are the engine's reply; `None` stands
    /// for a null reply buffer and always signals failure, whatever the
    /// status says. An empty id sequence decodes to empty text without
    /// consulting the engine, so its reply is ignored.
    pub fn decode(&self, pieces: &[i32], status: i32, decoded: Option<Vec<u8>>) -> (r: Result<
        SentencePieceBuffer<u8>,
        SentencePieceError,
    >)
        requires
            self.wf(),
        ensures
            outcome_view(r) == decode_outcome(pieces@.len(), status, opt_seq(decoded)),
    {
        if pieces.len() == 0 {
            return Ok(SentencePieceBuffer::from_vec(Vec::new()));
        }
        match decoded {
            None => Err(SentencePieceError::Decode(status)),
            Some(bytes) => if status != 0 {
                Err(SentencePieceError::Decode(status))
            } else {
                Ok(SentencePieceBuffer::from_vec(bytes))
            },
        }
    }

    /// The sixteen-bit-id counterpart of `decode`, under the identical
    /// outcome rule: the two widths never differ in how a reply is judged.
    pub fn decode16(&self, pieces: &[u16], status: i32, decoded: Option<Vec<u8>>) -> (r: Result<
        SentencePieceBuffer<u8>,
        SentencePieceError,
    >)
        requires
            self.wf(),
        ensures
            outcome_view(r) == decode_outcome(pieces@.len(), status, opt_seq(decoded)),
    {
        if pieces.len() == 0 {
            return Ok(SentencePieceBuffer::from_vec(Vec::new()));
        }
        match decoded {
            None => Err(SentencePieceError::Decode(status)),
            Some(bytes) => if status != 0 {
                Err(SentencePieceError::Decode(status))
            } else {
                Ok(SentencePieceBuffer::from_vec(bytes))
            },
        }
    }

    /// Encode: turns the engine's reply for the given text into an id
    /// buffer. `encoded` is the engine's reply; `None` stands for a null
    /// reply buffer. Empty text encodes to an empty id buffer without
    /// consulting the engine, so its reply is ignored.
    pub fn encode(&self, sentence: &str, encoded: Option<Vec<i32>>) -> (r: Result<
        SentencePieceBuffer<i32>,
        SentencePieceError,
    >)
        requires
            self.wf(),
        ensures
            outcome_view(r) == encode_outcome(sentence@, opt_seq(encoded)),
    {
        if sentence.is_empty() {
            return Ok(SentencePieceBuffer::from_vec(Vec::new()));
        }
        match encoded {
            None => Err(SentencePieceError::Encode),
            Some(ids) => Ok(SentencePieceBuffer::from_vec(ids)),
        }
    }

    /// What a sixteen-bit encode returns: a vocabulary known to be too large
    /// for sixteen-bit ids is refused outright, never silently truncated;
    /// otherwise as `encode`, with the requested special tokens spliced
    /// around the single segmentation the engine replied with.
    pub open spec fn encode16_outcome(
        self,
        sentence: Seq<char>,
        prefix: Option<u16>,
        suffix: Option<u16>,
        encoded: Option<Seq<u16>>,
    ) -> Result<Seq<u16>, SentencePieceError> {
        if !self.fits16() {
            Err(SentencePieceError::Encode)
        } else if sentence.len() == 0 {
            Ok(splice16(Seq::empty(), prefix, suffix))
        } else {
            match encoded {
                None => Err(SentencePieceError::Encode),
                Some(ids) => Ok(splice16(ids, prefix, suffix)),
            }
        }
    }

    /// One parameterized body behind the four public sixteen-bit encodes.
    fn encode16_spliced(
        &self,
        sentence: &str,
        prefix: Option<u16>,
        suffix: Option<u16>,
        encoded: Option<Vec<u16>>,
    ) -> (r: Result<SentencePieceBuffer<u16>, SentencePieceError>)
        requires
            self.wf(),
        ensures
            outcome_view(r) == self.encode16_outcome(sentence@, prefix, suffix, opt_seq(encoded)),
    {
        if self.num > MAX_VOCAB_16 {
            return Err(SentencePieceError::Encode);
        }
        let ids: Vec<u16> = if sentence.is_empty() {
            Vec::new()
        } else {
            match encoded {
                None => {
                    return Err(SentencePieceError::Encode);
                },
                Some(v) => v,
            }
        };
        let ghost base: Seq<u16> = ids@;
        let ghost front: Seq<u16> = match prefix {
            Some(p) => seq![p],
            None => Seq::empty(),
        };
        let mut out: Vec<u16> = Vec::new();
        if let Some(p) = prefix {
            out.push(p);
        }
        assert(out@ == front + base.take(0));
        let mut i: usize = 0;
        while i < ids.len()
            invariant
                i <= ids.len(),
                ids@ == base,
                out@ == front + base.take(i as int),
            decreases ids.len() - i,
        {
            out.push(ids[i]);
            assert(base.take(i + 1 as int) == base.take(i as int).push(base[i as int]));
            i += 1;
        }
        assert(base.take(ids@.len() as int) == base);
        if let Some(s) = suffix {
            out.push(s);
        }
        assert(out@ == splice16(base, prefix, suffix));
        Ok(SentencePieceBuffer::from_vec(out))
    }

    /// Encode with sixteen-bit ids; the same contract as `encode`, refused
    /// when the vocabulary is known not to fit sixteen bits.
    pub fn encode16(&self, sentence: &str, encoded: Option<Vec<u16>>) -> (r: Result<
        SentencePieceBuffer<u16>,
        SentencePieceError,
    >)
        requires
            self.wf(),
        ensures
            outcome_view(r) == self.encode16_outcome(sentence@, None, None, opt_seq(encoded)),
    {
        self.encode16_spliced(sentence, None, None, encoded)
    }

    /// Encode with a reserved suffix token spliced after the segmentation.
    pub fn encode16_with_suffix(
        &self,
        sentence: &str,
        suffix_tok: u16,
        encoded: Option<Vec<u16>>,
    ) -> (r: Result<SentencePieceBuffer<u16>, SentencePieceError>)
        requires
            self.wf(),
        ensures
            outcome_view(r) == self.encode16_outcome(
                sentence@,
                None,
                Some(suffix_tok),
                opt_seq(encoded),
            ),
    {
        self.encode16_spliced(sentence, None, Some(suffix_tok), encoded)
    }

    /// Encode with a reserved prefix token spliced before the segmentation.
    pub fn encode16_with_prefix(
        &self,
        sentence: &str,
        prefix_tok: u16,
        encoded: Option<Vec<u16>>,
    ) -> (r: Result<SentencePieceBuffer<u16>, SentencePieceError>)
        requires
            self.wf(),
        ensures
            outcome_view(r) == self.encode16_outcome(
                sentence@,
                Some(prefix_tok),
                None,
                opt_seq(encoded),
            ),
    {
        self.encode16_spliced(sentence, Some(prefix_tok), None, encoded)
    }

    /// Encode with reserved tokens spliced immediately before and after the
    /// segmentation; one segmentation, never two.
    pub fn encode16_with_prefix_suffix(
        &self,
        sentence: &str,
        prefix_tok: u16,
        suffix_tok: u16,
        encoded: Option<Vec<u16>>,
    ) -> (r: Result<SentencePieceBuffer<u16>, SentencePieceError>)
        requires
            self.wf(),
        ensures
            outcome_view(r) == self.encode16_outcome(
                sentence@,
                Some(prefix_tok),
                Some(suffix_tok),
                opt_seq(encoded),
            ),
    {
        self.encode16_spliced(sentence, Some(prefix_tok), Some(suffix_tok), encoded)
    }
}

/// Any loaded model's vocabulary is non-empty whenever the engine reports
/// its size: the unknown id always exists and lies inside it.
pub proof fn lemma_vocab_nonempty(p: SentencePieceProcessor)
    requires
        p.wf(),
        p.num_raw() >= 0,
    ensures
        p.num_raw() >= 1,
{
}

/// The unknown id of any loaded model is in range: non-negative, and below
/// the vocabulary size whenever the engine reports one.
pub proof fn lemma_unknown_id_in_range(p: SentencePieceProcessor)
    requires
        p.wf(),
    ensures
        p.unk_raw() >= 0,
        p.num_raw() >= 0 ==> p.unk_raw() < p.num_raw(),
{
}

/// A prefixed-and-suffixed encode brackets the segmentation: the result
/// begins with the prefix token, ends with the suffix token, and carries the
/// segmentation unchanged in between.
pub proof fn lemma_splice_brackets(ids: Seq<u16>, p: u16, s: u16)
    ensures
        splice16(ids, Some(p), Some(s)).len() == ids.len() + 2,
        splice16(ids, Some(p), Some(s)).first() == p,
        splice16(ids, Some(p), Some(s)).last() == s,
        splice16(ids, Some(p), Some(s)).subrange(1, ids.len() as int + 1) == ids,
{
    assert(splice16(ids, Some(p), Some(s)).subrange(1, ids.len() as int + 1) =~= ids);
}

/// A null reply buffer always signals failure, whatever the status code
/// says: no operation that consulted the engine reports success without a
/// buffer to show for it.
pub proof fn lemma_null_reply_never_succeeds(
    p: SentencePieceProcessor,
    n_pieces: nat,
    status: i32,
    sentence: Seq<char>,
    prefix: Option<u16>,
    suffix: Option<u16>,
)
    requires
        n_pieces > 0,
        sentence.len() > 0,
    ensures
        decode_outcome(n_pieces, status, None) == Err::<Seq<u8>, SentencePieceError>(
            SentencePieceError::Decode(status),
        ),
        encode_outcome(sentence, None) == Err::<Seq<i32>, SentencePieceError>(
            SentencePieceError::Encode,
        ),
        p.encode16_outcome(sentence, prefix, suffix, None) == Err::<Seq<u16>, SentencePieceError>(
            SentencePieceError::Encode,
        ),
{
}

/// Every boundary outcome is a function of the façade's state, the request,
/// and the engine's reply alone: two callers handing in the same request and
/// reply always receive the same outcome, so a façade shared by concurrent
/// callers answers each exactly as it would answer them one by one.
pub proof fn lemma_outcomes_deterministic(
    p1: SentencePieceProcessor,
    p2: SentencePieceProcessor,
    sentence1: Seq<char>,
    sentence2: Seq<char>,
    prefix: Option<u16>,
    suffix: Option<u16>,
    reply1: Option<Seq<u16>>,
    reply2: Option<Seq<u16>>,
    n_pieces1: nat,
    n_pieces2: nat,
    status1: i32,
    status2: i32,
    bytes1: Option<Seq<u8>>,
    bytes2: Option<Seq<u8>>,
)
    requires
        p1 == p2,
        sentence1 == sentence2,
        reply1 == reply2,
        n_pieces1 == n_pieces2,
        status1 == status2,
        bytes1 == bytes2,
    ensures
        p1.encode16_outcome(sentence1, prefix, suffix, reply1) == p2.encode16_outcome(
            sentence2,
            prefix,
            suffix,
            reply2,
        ),
        decode_outcome(n_pieces1, status1, bytes1) == decode_outcome(n_pieces2, status2, bytes2),
{
}

} // verus!
