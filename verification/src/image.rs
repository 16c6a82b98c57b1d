//! Pictures in the terminal: which protocol a terminal speaks, the bytes
//! that draw a picture in each protocol, and the names under which pictures
//! are kept on disk. Nothing here writes to the terminal or to disk.

use crate::config::ImageConfig;
use crate::text::{chars_of, concat3, decimal, is_text, lowered, push_decimal, push_str, to_lower};
use crate::ui::{add_clipped, clip, Rect};
use base64::Engine;
use vstd::prelude::*;
use vstd::string::StringSliceAdditionalSpecFns;

verus! {

/// The number of payload bytes that one sequence of the chunked protocol
/// carries at most.
pub const CHUNK_BYTES: usize = 4096;

#[derive(Debug, Clone, Copy, PartialEq, Eq, Structural)]
pub enum ImageProtocol {
    Kitty,
    Iterm2,
    /// No protocol: the terminal draws no pictures.
    Unsupported,
}

#[derive(Debug, Clone)]
pub struct ImageSupport {
    protocol: ImageProtocol,
    enabled: bool,
}

/// What the environment says of the terminal: the values of `TERM` and
/// `TERM_PROGRAM`, empty where unset, and whether `KITTY_WINDOW_ID`,
/// `ITERM_SESSION_ID` and `WEZTERM_EXECUTABLE` are set.
pub struct TerminalEnv {
    pub term: String,
    pub term_program: String,
    pub kitty_window_id: bool,
    pub iterm_session_id: bool,
    pub wezterm_executable: bool,
}

/// Whether `part` occurs somewhere in `s`.
pub open spec fn has_part(s: Seq<char>, part: Seq<char>) -> bool {
    exists|i: int| 0 <= i <= s.len() - part.len() && #[trigger] s.subrange(i, i + part.len()) == part
}

/// Whether `part` occurs somewhere in `s`.
pub fn contains_part(s: &Vec<char>, part: &Vec<char>) -> (r: bool)
    ensures
        r == has_part(s@, part@),
{
    if part.len() > s.len() {
        return false;
    }
    let last = s.len() - part.len();
    let mut i: usize = 0;
    while i <= last
        invariant
            part.len() <= s.len(),
            last == s.len() - part.len(),
            i <= last + 1,
            forall|k: int| 0 <= k < i ==> #[trigger] s@.subrange(k, k + part@.len()) != part@,
        decreases last + 1 - i,
    {
        let mut j: usize = 0;
        while j < part.len() && s[i + j] == part[j]
            invariant
                i <= last,
                last == s.len() - part.len(),
                j <= part.len(),
                forall|k: int| 0 <= k < j ==> s@[i + k] == part@[k],
            decreases part.len() - j,
        {
            j += 1;
        }
        if j == part.len() {
            assert(s@.subrange(i as int, i + part@.len()) =~= part@);
            return true;
        }
        assert(s@.subrange(i as int, i + part@.len())[j as int] != part@[j as int]);
        i += 1;
    }
    false
}

/// The protocol that a terminal speaks, as far as its environment tells:
/// the chunked protocol where the environment names kitty or ghostty, the
/// inline protocol where it names iTerm or WezTerm, else none.
pub open spec fn detected_protocol(env: TerminalEnv) -> ImageProtocol {
    if env.kitty_window_id || has_part(lowered(env.term@), "kitty"@) || has_part(
        lowered(env.term_program@),
        "ghostty"@,
    ) {
        ImageProtocol::Kitty
    } else if env.iterm_session_id || env.wezterm_executable || env.term_program@ == "WezTerm"@
        || env.term_program@ == "iTerm.app"@ {
        ImageProtocol::Iterm2
    } else {
        ImageProtocol::Unsupported
    }
}

/// The protocol that the settings name, in any mix of ASCII case; `None`
/// where they leave it to the environment.
pub open spec fn configured_protocol(name: Seq<char>) -> Option<ImageProtocol> {
    let n = lowered(name);
    if n == "kitty"@ {
        Some(ImageProtocol::Kitty)
    } else if n == "iterm2"@ || n == "wezterm"@ {
        Some(ImageProtocol::Iterm2)
    } else if n == "none"@ {
        Some(ImageProtocol::Unsupported)
    } else {
        None
    }
}

/// The size of the standard base64 encoding of `n` bytes, padding included.
pub open spec fn base64_len(n: nat) -> nat {
    4 * ((n + 2) / 3)
}

/// The standard base64 encoding, with padding, of `bytes`.
pub uninterp spec fn base64_standard(bytes: Seq<u8>) -> Seq<u8>;

/// The URL-safe base64 encoding, without padding, of the UTF-8 bytes of `text`.
pub uninterp spec fn base64_url_safe(text: Seq<char>) -> Seq<char>;

/// The PNG encoding of the picture that `bytes` hold, where they hold one
/// that can be decoded.
pub uninterp spec fn png_encoding(bytes: Seq<u8>) -> Option<Seq<u8>>;

/// `Engine::encode` of `base64::engine::general_purpose::STANDARD`: the
/// standard base64 encoding of the bytes, which is as long as the crate's
/// `encoded_len` computes for padded output. The call fails where that
/// length does not fit in a `usize`, which the precondition rules out.
#[verifier::external_body]
fn encode_standard(bytes: &[u8]) -> (out: Vec<u8>)
    requires
        base64_len(bytes@.len()) <= usize::MAX,
    ensures
        out@ == base64_standard(bytes@),
        out@.len() == base64_len(bytes@.len()),
{
    base64::engine::general_purpose::STANDARD.encode(bytes).into_bytes()
}

/// `Engine::encode` of `base64::engine::general_purpose::URL_SAFE_NO_PAD`
/// on the bytes of a text: its URL-safe base64 encoding without padding.
/// The call fails where the encoded length does not fit in a `usize`, which
/// the precondition rules out.
#[verifier::external_body]
fn encode_url_safe(text: &str) -> (out: String)
    requires
        base64_len(text.spec_bytes().len()) <= usize::MAX,
    ensures
        out@ == base64_url_safe(text@),
{
    base64::engine::general_purpose::URL_SAFE_NO_PAD.encode(text.as_bytes())
}

/// `image::load_from_memory` followed by `DynamicImage::write_to` with
/// `ImageOutputFormat::Png`: the PNG encoding of the picture in the bytes,
/// or nothing where either call returns an error.
#[verifier::external_body]
fn reencode_png(bytes: &[u8]) -> (out: Option<Vec<u8>>)
    ensures
        match png_encoding(bytes@) {
            Some(png) => out matches Some(v) && v@ == png,
            None => out is None,
        },
{
    let picture = image::load_from_memory(bytes).ok()?;
    let mut out = Vec::new();
    let mut cursor = std::io::Cursor::new(&mut out);
    picture.write_to(&mut cursor, image::ImageOutputFormat::Png).ok()?;
    Some(out)
}

/// The eight bytes with which every PNG file begins.
pub open spec fn png_signature() -> Seq<u8> {
    seq![0x89u8, 0x50u8, 0x4eu8, 0x47u8, 0x0du8, 0x0au8, 0x1au8, 0x0au8]
}

/// Whether `bytes` begin as a PNG file does.
pub open spec fn is_png(bytes: Seq<u8>) -> bool {
    png_signature().is_prefix_of(bytes)
}

/// Whether `bytes` begin as a PNG file does.
pub fn starts_as_png(bytes: &[u8]) -> (r: bool)
    ensures
        r == is_png(bytes@),
{
    if bytes.len() < 8 {
        return false;
    }
    let r = bytes[0] == 0x89 && bytes[1] == 0x50 && bytes[2] == 0x4e && bytes[3] == 0x47
        && bytes[4] == 0x0d && bytes[5] == 0x0a && bytes[6] == 0x1a && bytes[7] == 0x0a;
    proof {
        let sig = png_signature();
        let head = bytes@.subrange(0, 8);
        if r {
            assert(head =~= sig);
        } else {
            assert(head[0] == bytes@[0] && head[1] == bytes@[1] && head[2] == bytes@[2] && head[3]
                == bytes@[3] && head[4] == bytes@[4] && head[5] == bytes@[5] && head[6]
                == bytes@[6] && head[7] == bytes@[7]);
        }
    }
    r
}

/// A picture that could not be brought into the one format that is kept.
#[derive(Debug, Clone, Copy, PartialEq, Eq, Structural)]
pub enum PictureError {
    /// The bytes hold no picture of a format that can be decoded.
    Undecodable,
}

/// What `ensure_png` makes of `bytes`: a PNG as it is, any other picture
/// encoded as PNG, and an error where the bytes hold no picture.
pub open spec fn as_png(bytes: Seq<u8>) -> Result<Seq<u8>, PictureError> {
    if is_png(bytes) {
        Ok(bytes)
    } else {
        match png_encoding(bytes) {
            Some(png) => Ok(png),
            None => Err(PictureError::Undecodable),
        }
    }
}

/// What `ensure_png` returns for bytes that are no PNG, given what encoding
/// them anew came to.
pub fn png_or_error(reencoded: Option<Vec<u8>>) -> (r: Result<Vec<u8>, PictureError>)
    ensures
        r == match reencoded {
            Some(png) => Ok::<Vec<u8>, PictureError>(png),
            None => Err::<Vec<u8>, PictureError>(PictureError::Undecodable),
        },
{
    match reencoded {
        Some(png) => Ok(png),
        None => Err(PictureError::Undecodable),
    }
}

/// The picture in `bytes` as a PNG.
pub fn ensure_png(bytes: &[u8]) -> (r: Result<Vec<u8>, PictureError>)
    ensures
        match as_png(bytes@) {
            Ok(png) => r matches Ok(v) && v@ == png,
            Err(e) => r == Err::<Vec<u8>, PictureError>(e),
        },
{
    if starts_as_png(bytes) {
        return Ok(vstd::slice::slice_to_vec(bytes));
    }
    png_or_error(reencode_png(bytes))
}

/// The bytes of a text of ASCII characters.
pub open spec fn ascii(text: Seq<char>) -> Seq<u8> {
    Seq::new(text.len(), |i: int| text[i] as u8)
}

/// The header of one sequence of the chunked protocol: transmit and show,
/// the data is a PNG, the size in cells, and whether more sequences follow.
pub open spec fn kitty_header(width: u16, height: u16, more: bool) -> Seq<char> {
    "\x1b_Ga=T,f=100,c="@ + decimal(width as nat) + ",r="@ + decimal(height as nat) + ",m="@ + (if more {
        "1"@
    } else {
        "0"@
    }) + ";"@
}

/// The number of sequences that a payload takes.
pub open spec fn chunk_count(len: nat) -> nat {
    (len + CHUNK_BYTES - 1) as nat / (CHUNK_BYTES as nat)
}

/// The `i`-th sequence for a payload: the header, that chunk of the payload,
/// and the terminator. Every sequence but the last says that more follow.
pub open spec fn kitty_sequence(payload: Seq<u8>, width: u16, height: u16, i: int) -> Seq<u8> {
    let end = if (i + 1) * CHUNK_BYTES < payload.len() {
        (i + 1) * CHUNK_BYTES
    } else {
        payload.len() as int
    };
    ascii(kitty_header(width, height, i + 1 < chunk_count(payload.len()))) + payload.subrange(
        i * CHUNK_BYTES,
        end,
    ) + seq![0x1bu8, 0x5cu8]
}

/// The sequences that draw a payload in the chunked protocol, in order. An
/// empty payload takes none.
pub open spec fn kitty_sequences(payload: Seq<u8>, width: u16, height: u16) -> Seq<Seq<u8>> {
    Seq::new(chunk_count(payload.len()), |i: int| kitty_sequence(payload, width, height, i))
}

/// The one sequence that draws a payload in the inline protocol: the size
/// in cells, the aspect ratio kept, and the whole payload.
pub open spec fn iterm2_sequence(payload: Seq<u8>, width: u16, height: u16) -> Seq<u8> {
    ascii(
        "\x1b]1337;File=inline=1;width="@ + decimal(width as nat) + "c;height="@ + decimal(
            height as nat,
        ) + "c;preserveAspectRatio=1:"@,
    ) + payload + seq![0x07u8]
}

/// The byte sequences that a vector of byte vectors holds.
pub open spec fn byte_seqs(v: Seq<Vec<u8>>) -> Seq<Seq<u8>> {
    Seq::new(v.len(), |i: int| v[i]@)
}

/// Whether every character of `text` is an ASCII character.
pub open spec fn all_ascii(text: Seq<char>) -> bool {
    forall|i: int| 0 <= i < text.len() ==> (#[trigger] text[i]) as u32 <= 127
}

fn push_ascii(text: &Vec<char>, out: &mut Vec<u8>)
    requires
        all_ascii(text@),
    ensures
        final(out)@ == old(out)@ + ascii(text@),
{
    let mut i: usize = 0;
    assert(out@ =~= old(out)@ + ascii(text@).take(0));
    while i < text.len()
        invariant
            i <= text.len(),
            all_ascii(text@),
            out@ == old(out)@ + ascii(text@).take(i as int),
        decreases text.len() - i,
    {
        assert(text@[i as int] as u32 <= 127);
        out.push(text[i] as u8);
        assert(out@ =~= old(out)@ + ascii(text@).take(i + 1));
        i += 1;
    }
    assert(ascii(text@).take(text@.len() as int) =~= ascii(text@));
}

proof fn lemma_decimal_ascii(n: nat)
    ensures
        all_ascii(decimal(n)),
    decreases n,
{
    if n >= 10 {
        lemma_decimal_ascii(n / 10);
        let front = decimal(n / 10);
        assert forall|i: int| 0 <= i < decimal(n).len() implies (#[trigger] decimal(n)[i]) as u32
            <= 127 by {
            if i < front.len() {
                assert(decimal(n)[i] == front[i]);
            }
        }
    }
}

fn header_bytes(width: u16, height: u16, more: bool) -> (out: Vec<u8>)
    ensures
        out@ == ascii(kitty_header(width, height, more)),
{
    let mut text: Vec<char> = Vec::new();
    push_str("\x1b_Ga=T,f=100,c=", &mut text);
    push_decimal(width as u64, &mut text);
    push_str(",r=", &mut text);
    push_decimal(height as u64, &mut text);
    push_str(",m=", &mut text);
    if more {
        push_str("1", &mut text);
    } else {
        push_str("0", &mut text);
    }
    push_str(";", &mut text);
    proof {
        reveal_strlit("\x1b_Ga=T,f=100,c=");
        reveal_strlit(",r=");
        reveal_strlit(",m=");
        reveal_strlit("1");
        reveal_strlit("0");
        reveal_strlit(";");
        lemma_decimal_ascii(width as nat);
        lemma_decimal_ascii(height as nat);
        assert(text@ =~= kitty_header(width, height, more));
    }
    let mut out: Vec<u8> = Vec::new();
    push_ascii(&text, &mut out);
    out
}

/// The sequences that draw `payload` in the chunked protocol.
pub fn encode_kitty(payload: &[u8], width: u16, height: u16) -> (out: Vec<Vec<u8>>)
    ensures
        byte_seqs(out@) == kitty_sequences(payload@, width, height),
{
    let len = payload.len();
    let count: usize = len / CHUNK_BYTES + if len % CHUNK_BYTES > 0 {
        1usize
    } else {
        0usize
    };
    assert(count == chunk_count(len as nat));
    let mut out: Vec<Vec<u8>> = Vec::new();
    let mut i: usize = 0;
    while i < count
        invariant
            i <= count,
            len == payload@.len(),
            count == chunk_count(len as nat),
            out@.len() == i,
            forall|k: int| 0 <= k < i ==> (#[trigger] out@[k])@ == kitty_sequence(payload@, width, height, k),
        decreases count - i,
    {
        let start = i * CHUNK_BYTES;
        let end = if len - start > CHUNK_BYTES {
            start + CHUNK_BYTES
        } else {
            len
        };
        let mut sequence = header_bytes(width, height, i + 1 < count);
        let ghost head = sequence@;
        let mut j: usize = start;
        while j < end
            invariant
                start <= j <= end <= payload@.len(),
                sequence@ == head + payload@.subrange(start as int, j as int),
            decreases end - j,
        {
            sequence.push(payload[j]);
            assert(sequence@ =~= head + payload@.subrange(start as int, j + 1));
            j += 1;
        }
        sequence.push(0x1b);
        sequence.push(0x5c);
        assert(sequence@ =~= kitty_sequence(payload@, width, height, i as int));
        out.push(sequence);
        i += 1;
    }
    assert(byte_seqs(out@) =~= kitty_sequences(payload@, width, height));
    out
}

/// The sequence that draws `payload` in the inline protocol.
pub fn encode_iterm2(payload: &[u8], width: u16, height: u16) -> (out: Vec<u8>)
    ensures
        out@ == iterm2_sequence(payload@, width, height),
{
    let mut text: Vec<char> = Vec::new();
    push_str("\x1b]1337;File=inline=1;width=", &mut text);
    push_decimal(width as u64, &mut text);
    push_str("c;height=", &mut text);
    push_decimal(height as u64, &mut text);
    push_str("c;preserveAspectRatio=1:", &mut text);
    proof {
        reveal_strlit("\x1b]1337;File=inline=1;width=");
        reveal_strlit("c;height=");
        reveal_strlit("c;preserveAspectRatio=1:");
        lemma_decimal_ascii(width as nat);
        lemma_decimal_ascii(height as nat);
    }
    let mut out: Vec<u8> = Vec::new();
    push_ascii(&text, &mut out);
    let ghost head = out@;
    let mut j: usize = 0;
    while j < payload.len()
        invariant
            j <= payload@.len(),
            out@ == head + payload@.take(j as int),
        decreases payload.len() - j,
    {
        out.push(payload[j]);
        assert(out@ =~= head + payload@.take(j + 1));
        j += 1;
    }
    assert(payload@.take(payload@.len() as int) =~= payload@);
    out.push(0x07);
    out
}

/// A payload is drawn in the chunked protocol by as many sequences as it
/// has chunks, and each of them begins with a header that announces another
/// sequence exactly where one follows. The base64 text of a picture of 9000
/// bytes, which is 12000 bytes long, takes three.
pub proof fn lemma_chunks_of_payload(payload: Seq<u8>, width: u16, height: u16)
    ensures
        kitty_sequences(payload, width, height).len() == chunk_count(payload.len()),
        payload.len() == base64_len(9000) ==> kitty_sequences(payload, width, height).len() == 3,
        forall|i: int|
            0 <= i < chunk_count(payload.len()) ==> ascii(
                kitty_header(width, height, i + 1 < chunk_count(payload.len())),
            ).is_prefix_of(#[trigger] kitty_sequences(payload, width, height)[i]),
{
    let n = chunk_count(payload.len());
    assert forall|i: int| 0 <= i < n implies ascii(
        kitty_header(width, height, i + 1 < n),
    ).is_prefix_of(#[trigger] kitty_sequences(payload, width, height)[i]) by {
        let head = ascii(kitty_header(width, height, i + 1 < n));
        let whole = kitty_sequence(payload, width, height, i);
        assert(whole.subrange(0, head.len() as int) =~= head);
    }
}

/// The cell at which a picture is drawn and its size in cells: the inside
/// of the area where the area has an inside, the area itself where it is no
/// more than a frame, and never less than one cell either way.
pub open spec fn picture_frame(area: Rect) -> Rect {
    if area.width <= 2 || area.height <= 2 {
        Rect {
            x: area.x,
            y: area.y,
            width: if area.width >= 1 {
                area.width
            } else {
                1
            },
            height: if area.height >= 1 {
                area.height
            } else {
                1
            },
        }
    } else {
        Rect {
            x: clip(area.x + 1),
            y: clip(area.y + 1),
            width: (area.width - 2) as u16,
            height: (area.height - 2) as u16,
        }
    }
}

/// What is to be written to the terminal for one picture: where the cursor
/// goes, and the sequences that follow, in order.
pub struct Drawing {
    pub x: u16,
    pub y: u16,
    pub sequences: Vec<Vec<u8>>,
}

/// The sequences that draw a picture in a protocol.
pub open spec fn picture_sequences(protocol: ImageProtocol, bytes: Seq<u8>, frame: Rect) -> Seq<
    Seq<u8>,
> {
    match protocol {
        ImageProtocol::Kitty => kitty_sequences(base64_standard(bytes), frame.width, frame.height),
        ImageProtocol::Iterm2 => seq![
            iterm2_sequence(base64_standard(bytes), frame.width, frame.height),
        ],
        ImageProtocol::Unsupported => Seq::empty(),
    }
}

/// The number of sequences that draw a picture of `len` bytes in a protocol.
pub open spec fn sequence_count(protocol: ImageProtocol, len: nat) -> nat {
    match protocol {
        ImageProtocol::Kitty => chunk_count(base64_len(len)),
        ImageProtocol::Iterm2 => 1,
        ImageProtocol::Unsupported => 0,
    }
}

/// The sequence that clears the pictures of the chunked protocol.
pub open spec fn kitty_reset() -> Seq<char> {
    "\x1b_Ga=d\x1b\\"@
}

impl ImageSupport {
    pub closed spec fn protocol(&self) -> ImageProtocol {
        self.protocol
    }

    pub closed spec fn enabled(&self) -> bool {
        self.enabled
    }

    /// Whether pictures are drawn at all.
    pub open spec fn draws(&self) -> bool {
        self.enabled() && self.protocol() != ImageProtocol::Unsupported
    }

    pub fn new(protocol: ImageProtocol, enabled: bool) -> (r: Self)
        ensures
            r.protocol() == protocol,
            r.enabled() == enabled,
    {
        ImageSupport { protocol, enabled }
    }

    /// The protocol in use.
    pub fn protocol_in_use(&self) -> (p: ImageProtocol)
        ensures
            p == self.protocol(),
    {
        self.protocol
    }

    /// Whether pictures are switched on.
    pub fn is_enabled(&self) -> (r: bool)
        ensures
            r == self.enabled(),
    {
        self.enabled
    }

    /// The support that the environment of the terminal suggests. Switched
    /// off, there is none, whatever the terminal.
    pub fn detect(enabled: bool, env: &TerminalEnv) -> (r: Self)
        ensures
            r.enabled() == enabled,
            r.protocol() == if enabled {
                detected_protocol(*env)
            } else {
                ImageProtocol::Unsupported
            },
    {
        if !enabled {
            return ImageSupport::new(ImageProtocol::Unsupported, false);
        }
        let term = to_lower(&chars_of(env.term.as_str()));
        let program = chars_of(env.term_program.as_str());
        let program_lower = to_lower(&program);
        if env.kitty_window_id || contains_part(&term, &chars_of("kitty")) || contains_part(
            &program_lower,
            &chars_of("ghostty"),
        ) {
            return ImageSupport::new(ImageProtocol::Kitty, true);
        }
        if env.iterm_session_id || env.wezterm_executable || is_text(&program, "WezTerm") || is_text(
            &program,
            "iTerm.app",
        ) {
            return ImageSupport::new(ImageProtocol::Iterm2, true);
        }
        ImageSupport::new(ImageProtocol::Unsupported, true)
    }

    /// The support that the settings ask for. A protocol that they name is
    /// taken, and naming none switches pictures off; otherwise the
    /// environment decides.
    pub fn from_config(config: &ImageConfig, env: &TerminalEnv) -> (r: Self)
        ensures
            match configured_protocol(config.protocol@) {
                Some(ImageProtocol::Unsupported) => r.protocol() == ImageProtocol::Unsupported && !r.enabled(),
                Some(p) => r.protocol() == p && r.enabled() == config.enabled,
                None => r.enabled() == config.enabled && r.protocol() == if config.enabled {
                    detected_protocol(*env)
                } else {
                    ImageProtocol::Unsupported
                },
            },
    {
        let name = to_lower(&chars_of(config.protocol.as_str()));
        if is_text(&name, "kitty") {
            ImageSupport::new(ImageProtocol::Kitty, config.enabled)
        } else if is_text(&name, "iterm2") || is_text(&name, "wezterm") {
            ImageSupport::new(ImageProtocol::Iterm2, config.enabled)
        } else if is_text(&name, "none") {
            ImageSupport::new(ImageProtocol::Unsupported, false)
        } else {
            ImageSupport::detect(config.enabled, env)
        }
    }

    /// What is to be written to draw a picture in an area: nothing where
    /// pictures are not drawn or where the area or the picture is missing,
    /// else the cursor's place and the sequences of the protocol on the
    /// base64 text of the picture.
    pub fn render_avatar(&self, area: Option<Rect>, avatar: Option<&[u8]>) -> (r: Option<Drawing>)
        requires
            avatar matches Some(bytes) ==> base64_len(bytes@.len()) <= usize::MAX,
        ensures
            match (area, avatar) {
                (Some(area), Some(bytes)) => if self.draws() {
                    &&& r matches Some(drawing)
                    &&& drawing.x == picture_frame(area).x
                    &&& drawing.y == picture_frame(area).y
                    &&& byte_seqs(drawing.sequences@) == picture_sequences(
                        self.protocol(),
                        bytes@,
                        picture_frame(area),
                    )
                    &&& drawing.sequences@.len() == sequence_count(self.protocol(), bytes@.len())
                } else {
                    r is None
                },
                _ => r is None,
            },
    {
        if !self.enabled || self.protocol == ImageProtocol::Unsupported {
            return None;
        }
        let area = match area {
            Some(area) => area,
            None => {
                return None;
            },
        };
        let bytes = match avatar {
            Some(bytes) => bytes,
            None => {
                return None;
            },
        };
        let frame = if area.width <= 2 || area.height <= 2 {
            Rect {
                x: area.x,
                y: area.y,
                width: if area.width >= 1 {
                    area.width
                } else {
                    1
                },
                height: if area.height >= 1 {
                    area.height
                } else {
                    1
                },
            }
        } else {
            Rect {
                x: add_clipped(area.x, 1),
                y: add_clipped(area.y, 1),
                width: area.width - 2,
                height: area.height - 2,
            }
        };
        let payload = encode_standard(bytes);
        let sequences = match self.protocol {
            ImageProtocol::Iterm2 => {
                let mut one: Vec<Vec<u8>> = Vec::new();
                one.push(encode_iterm2(payload.as_slice(), frame.width, frame.height));
                assert(byte_seqs(one@) =~= picture_sequences(self.protocol(), bytes@, frame));
                one
            },
            ImageProtocol::Kitty => encode_kitty(payload.as_slice(), frame.width, frame.height),
            ImageProtocol::Unsupported => Vec::new(),
        };
        assert(byte_seqs(sequences@).len() == sequences@.len());
        Some(Drawing { x: frame.x, y: frame.y, sequences })
    }

    /// What is to be written to clear the pictures on screen: the reset
    /// sequence of the chunked protocol where that is in use, else nothing.
    pub fn reset(&self) -> (r: Option<&'static str>)
        ensures
            match r {
                Some(s) => s@ == kitty_reset(),
                None => true,
            },
            r is Some == (self.enabled() && self.protocol() == ImageProtocol::Kitty),
    {
        if self.enabled && self.protocol == ImageProtocol::Kitty {
            Some("\x1b_Ga=d\x1b\\")
        } else {
            None
        }
    }
}

/// The file under which the picture from `url` is kept, given the cache
/// root: in the directory of pictures, under the URL-safe base64 of the
/// address.
pub open spec fn cache_path_text(root: Seq<char>, url: Seq<char>) -> Seq<char> {
    crate::config::cache_dir_text(root) + "/images/"@ + base64_url_safe(url)
}

/// The file under which the picture from `url` is kept, given its name.
pub fn cache_file(cache_root: &str, name: &str) -> (path: String)
    ensures
        path@ == crate::config::cache_dir_text(cache_root@) + "/images/"@ + name@,
{
    let dir = crate::text::concat(cache_root, "/dota2_tui");
    concat3(dir.as_str(), "/images/", name)
}

/// The file under which the picture from `url` is kept; none where the
/// system names no cache root.
pub fn cache_path(cache_root: Option<&str>, url: &str) -> (r: Option<String>)
    requires
        base64_len(url.spec_bytes().len()) <= usize::MAX,
    ensures
        match cache_root {
            Some(root) => r matches Some(path) && path@ == cache_path_text(root@, url@),
            None => r is None,
        },
{
    match cache_root {
        Some(root) => {
            let name = encode_url_safe(url);
            Some(cache_file(root, name.as_str()))
        },
        None => None,
    }
}

} // verus!
