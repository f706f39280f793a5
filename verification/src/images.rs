//! Inline images: reading Kitty graphics commands and Sixel data, and the
//! store of images and their placements on the grid.

use vstd::prelude::*;
use crate::text::{chars_of, parse_unsigned, parse_unsigned_range, split_on, split_chars, string_from_chars};

verus! {

/// Identifier of an inline image.
pub type ImageId = u32;

/// Image formats.
#[derive(Debug, Clone, Copy, PartialEq, Eq, Structural)]
pub enum ImageFormat {
    /// Raw RGBA pixel data (32-bit)
    Rgba,
    /// PNG encoded image
    Png,
    /// Sixel format
    Sixel,
}

/// Where an image is placed.
#[derive(Debug, Clone, Copy, PartialEq, Eq, Structural)]
pub enum PlacementMode {
    /// At the cursor
    AtCursor,
    /// At a cell
    AtCell { row: usize, col: usize },
    /// Virtual placement (referenced by id)
    Virtual,
}

/// An image stored in the terminal.
#[derive(Debug, Clone)]
pub struct InlineImage {
    /// Unique image id
    pub id: ImageId,
    /// Decoded RGBA data
    pub data: Vec<u8>,
    /// Width in pixels
    pub width: u32,
    /// Height in pixels
    pub height: u32,
    /// Display width in cells (0 = auto)
    pub cell_width: u32,
    /// Display height in cells (0 = auto)
    pub cell_height: u32,
    /// X offset within the cell (pixels)
    pub x_offset: u32,
    /// Y offset within the cell (pixels)
    pub y_offset: u32,
    /// Z-index for layering
    pub z_index: i32,
}

/// A placement of an image on the grid.
#[derive(Debug, Clone, Copy, PartialEq, Eq, Structural)]
pub struct ImagePlacement {
    /// The image shown
    pub image_id: ImageId,
    /// Top row
    pub row: usize,
    /// Left column
    pub col: usize,
    /// Width in cells
    pub width_cells: usize,
    /// Height in cells
    pub height_cells: usize,
    /// Shown (placements can be hidden)
    pub visible: bool,
}

/// Kitty graphics protocol actions.
#[derive(Debug, Clone, Copy, PartialEq, Eq, Structural)]
pub enum KittyAction {
    /// Transmit image data
    Transmit,
    /// Transmit and display
    TransmitAndDisplay,
    /// Query terminal capabilities
    Query,
    /// Display a transmitted image
    Display,
    /// Delete images
    Delete,
    /// Animate frames
    Animate,
    /// Compose image
    Compose,
}

/// A parsed Kitty graphics command.
#[derive(Debug, Clone)]
pub struct KittyCommand {
    /// Action to perform
    pub action: KittyAction,
    /// Image format
    pub format: ImageFormat,
    /// Image id
    pub id: Option<u32>,
    /// Width in pixels
    pub width: Option<u32>,
    /// Height in pixels
    pub height: Option<u32>,
    /// Display width in cells
    pub cell_width: Option<u32>,
    /// Display height in cells
    pub cell_height: Option<u32>,
    /// X offset in pixels
    pub x_offset: Option<u32>,
    /// Y offset in pixels
    pub y_offset: Option<u32>,
    /// Z-index for layering
    pub z_index: Option<i32>,
    /// More chunks follow
    pub more_data: bool,
    /// Placement id
    pub placement_id: Option<u32>,
    /// Quiet mode (0 = normal, 1 = no OK, 2 = no errors)
    pub quiet: Option<u32>,
    /// Payload (decoded from base64)
    pub payload: Option<Vec<u8>>,
}

/// The text of bytes read as UTF-8, with each invalid sequence replaced by
/// U+FFFD, as `String::from_utf8_lossy` gives it.
pub uninterp spec fn lossy_text(bytes: Seq<u8>) -> Seq<char>;

/// Calls `String::from_utf8_lossy`. Claimed: the text is a function of the
/// bytes (`lossy_text`), and valid UTF-8 is decoded as it is.
#[verifier::external_body]
pub(crate) fn utf8_lossy(bytes: &[u8]) -> (r: String)
    ensures
        r@ == lossy_text(bytes@),
        vstd::utf8::valid_utf8(bytes@) ==> r@ == vstd::utf8::decode_utf8(bytes@),
{
    String::from_utf8_lossy(bytes).into_owned()
}

/// The bytes that standard base64 (with padding) decodes `input` to, or
/// none where `input` is not valid base64.
pub uninterp spec fn base64_decoded(input: Seq<u8>) -> Option<Seq<u8>>;

/// The view of optional bytes.
pub open spec fn opt_bytes(o: Option<Vec<u8>>) -> Option<Seq<u8>> {
    match o {
        Some(v) => Some(v@),
        None => None,
    }
}

/// Calls `base64::engine::general_purpose::STANDARD.decode`, keeping the
/// bytes on success. Claimed: the result is a function of the input
/// (`base64_decoded`).
#[verifier::external_body]
fn decode_base64(input: &[u8]) -> (r: Option<Vec<u8>>)
    ensures
        opt_bytes(r) == base64_decoded(input@),
{
    base64::Engine::decode(&base64::engine::general_purpose::STANDARD, input).ok()
}

/// The position of the first `c` in `s`.
pub open spec fn index_of(s: Seq<char>, c: char) -> Option<nat>
    decreases s.len(),
{
    if s.len() == 0 {
        None
    } else if s[0] == c {
        Some(0)
    } else {
        match index_of(s.drop_first(), c) {
            Some(i) => Some(i + 1),
            None => None,
        }
    }
}

pub(crate) proof fn lemma_index_of(s: Seq<char>, c: char, k: int)
    requires
        0 <= k <= s.len(),
        forall|i: int| 0 <= i < k ==> s[i] != c,
        k < s.len() ==> s[k] == c,
    ensures
        index_of(s, c) == if k < s.len() {
            Some(k as nat)
        } else {
            None::<nat>
        },
    decreases s.len(),
{
    if s.len() > 0 && k > 0 {
        assert forall|i: int| 0 <= i < k - 1 implies s.drop_first()[i] != c by {
            assert(s.drop_first()[i] == s[i + 1]);
        }
        lemma_index_of(s.drop_first(), c, k - 1);
    }
}

/// The position of the first `c` in `v`.
pub(crate) fn find_char(v: &[char], c: char) -> (r: Option<usize>)
    ensures
        match r {
            Some(k) => index_of(v@, c) == Some(k as nat) && k < v@.len() && v@[k as int] == c,
            None => index_of(v@, c) is None,
        },
{
    let mut k: usize = 0;
    while k < v.len() && v[k] != c
        invariant
            k <= v@.len(),
            forall|i: int| 0 <= i < k ==> v@[i] != c,
        decreases v@.len() - k,
    {
        k = k + 1;
    }
    proof {
        lemma_index_of(v@, c, k as int);
    }
    if k < v.len() {
        Some(k)
    } else {
        None
    }
}

/// The key and value of each `key=value` of a command's parameters, in
/// order; pieces without `=` or with an empty key are skipped, and the key
/// is the first character before the `=`.
pub open spec fn kitty_pairs(pieces: Seq<Seq<char>>) -> Seq<(char, Seq<char>)>
    decreases pieces.len(),
{
    if pieces.len() == 0 {
        Seq::empty()
    } else {
        let init = kitty_pairs(pieces.drop_last());
        let p = pieces.last();
        match index_of(p, '=') {
            Some(i) => if i > 0 {
                init.push((p[0], p.skip((i + 1) as int)))
            } else {
                init
            },
            None => init,
        }
    }
}

/// The value last given to `key`.
pub open spec fn pair_lookup(pairs: Seq<(char, Seq<char>)>, key: char) -> Option<Seq<char>>
    decreases pairs.len(),
{
    if pairs.len() == 0 {
        None
    } else if pairs.last().0 == key {
        Some(pairs.last().1)
    } else {
        pair_lookup(pairs.drop_last(), key)
    }
}

/// The first character of the value of `key`.
pub open spec fn pair_char(pairs: Seq<(char, Seq<char>)>, key: char) -> Option<char> {
    match pair_lookup(pairs, key) {
        Some(v) => if v.len() > 0 {
            Some(v[0])
        } else {
            None
        },
        None => None,
    }
}

/// The value of `key` read as a `u32`.
pub open spec fn pair_int(pairs: Seq<(char, Seq<char>)>, key: char) -> Option<u32> {
    match pair_lookup(pairs, key) {
        Some(v) => match parse_unsigned(v, u32::MAX as nat) {
            Some(n) => Some(n as u32),
            None => None,
        },
        None => None,
    }
}

/// The action a command's `a` key names (transmit by default).
pub open spec fn action_of(c: Option<char>) -> KittyAction {
    match c {
        Some('T') => KittyAction::TransmitAndDisplay,
        Some('q') => KittyAction::Query,
        Some('p') => KittyAction::Display,
        Some('d') => KittyAction::Delete,
        Some('a') => KittyAction::Animate,
        Some('c') => KittyAction::Compose,
        _ => KittyAction::Transmit,
    }
}

/// Each action letter names an action of its own: `T` transmit and
/// display, `q` query, `p` display, `d` delete, `a` animate and `c`
/// compose; any other letter, or none, leaves the default, transmit.
pub proof fn law_action_letters(c: Option<char>)
    ensures
        (action_of(c) == KittyAction::TransmitAndDisplay) == (c == Some('T')),
        (action_of(c) == KittyAction::Query) == (c == Some('q')),
        (action_of(c) == KittyAction::Display) == (c == Some('p')),
        (action_of(c) == KittyAction::Delete) == (c == Some('d')),
        (action_of(c) == KittyAction::Animate) == (c == Some('a')),
        (action_of(c) == KittyAction::Compose) == (c == Some('c')),
        (action_of(c) == KittyAction::Transmit) == !(c == Some('T') || c == Some('q') || c == Some('p')
            || c == Some('d') || c == Some('a') || c == Some('c')),
{
}

/// A parsed command's action is display exactly when its `a` key's value
/// starts with `p`, and transmit when the command names no action.
pub proof fn law_display_command(pairs: Seq<(char, Seq<char>)>)
    ensures
        (action_of(pair_char(pairs, 'a')) == KittyAction::Display) == (pair_char(pairs, 'a') == Some('p')),
        pair_lookup(pairs, 'a') is None ==> action_of(pair_char(pairs, 'a')) == KittyAction::Transmit,
{
    law_action_letters(pair_char(pairs, 'a'));
}

/// The format a command's `f` key names (32-bit RGBA by default).
pub open spec fn format_of(f: Option<u32>) -> ImageFormat {
    match f {
        Some(100) => ImageFormat::Png,
        _ => ImageFormat::Rgba,
    }
}

/// The parameter text of a command (before the first `;`).
pub open spec fn kitty_params_text(text: Seq<char>) -> Seq<char> {
    match index_of(text, ';') {
        Some(i) => text.take(i as int),
        None => text,
    }
}

/// The payload text of a command (after the first `;`), if any.
pub open spec fn kitty_payload_text(text: Seq<char>) -> Option<Seq<char>> {
    match index_of(text, ';') {
        Some(i) => Some(text.skip((i + 1) as int)),
        None => None,
    }
}

/// The decoded payload of a command.
pub open spec fn kitty_payload(text: Seq<char>) -> Option<Seq<u8>> {
    match kitty_payload_text(text) {
        Some(p) => base64_decoded(vstd::utf8::encode_utf8(p)),
        None => None,
    }
}

/// Reader of Kitty graphics protocol commands.
#[derive(Debug)]
pub struct KittyParser {
    /// The parameters of the last command, in order
    params: Vec<(char, String)>,
    /// Accumulated data
    data_buffer: Vec<u8>,
    /// In data mode
    in_data_mode: bool,
    /// Current payload chunk
    payload: Vec<u8>,
}

/// The views of a list of parameters.
pub open spec fn param_views(v: Seq<(char, String)>) -> Seq<(char, Seq<char>)> {
    v.map_values(|p: (char, String)| (p.0, p.1@))
}

impl KittyParser {
    /// A parser with no parameters.
    pub fn new() -> (p: Self)
        ensures
            p.params().len() == 0,
    {
        KittyParser { params: Vec::new(), data_buffer: Vec::new(), in_data_mode: false, payload: Vec::new() }
    }

    /// The parameters of the last command read, in order.
    pub closed spec fn params(self) -> Seq<(char, Seq<char>)> {
        param_views(self.params@)
    }

    /// The value last given to `key`.
    fn lookup(&self, key: char) -> (r: Option<&String>)
        ensures
            match pair_lookup(self.params(), key) {
                Some(v) => r is Some && r->0@ == v,
                None => r is None,
            },
    {
        let ghost pv = param_views(self.params@);
        assert(pv.take(pv.len() as int) =~= pv);
        let mut i: usize = self.params.len();
        while i > 0
            invariant
                i <= self.params@.len(),
                pv == param_views(self.params@),
                pair_lookup(pv, key) == pair_lookup(pv.take(i as int), key),
            decreases i,
        {
            assert(pv.take(i as int).drop_last() =~= pv.take(i - 1));
            if self.params[i - 1].0 == key {
                return Some(&self.params[i - 1].1);
            }
            i = i - 1;
        }
        None
    }

    /// The first character of the value of `key`.
    fn get_char(&self, key: char) -> (r: Option<char>)
        ensures
            r == pair_char(self.params(), key),
    {
        match self.lookup(key) {
            Some(v) => {
                let c = chars_of(v.as_str());
                if c.len() > 0 {
                    Some(c[0])
                } else {
                    None
                }
            },
            None => None,
        }
    }

    /// The value of `key` read as a `u32`.
    fn get_int(&self, key: char) -> (r: Option<u32>)
        ensures
            r == pair_int(self.params(), key),
    {
        match self.lookup(key) {
            Some(v) => {
                let c = chars_of(v.as_str());
                assert(c@.subrange(0, c@.len() as int) =~= c@);
                match parse_unsigned_range(c.as_slice(), 0, c.len(), u32::MAX as u64) {
                    Some(n) => Some(n as u32),
                    None => None,
                }
            },
            None => None,
        }
    }

    /// Reads a Kitty graphics command, `key=value,...;base64 payload`.
    pub fn parse(&mut self, data: &[u8]) -> (r: Option<KittyCommand>)
        ensures
            ({
                let text = lossy_text(data@);
                let pairs = kitty_pairs(split_on(kitty_params_text(text), ','));
                &&& final(self).params() == pairs
                &&& r is Some
                &&& r->0.action == action_of(pair_char(pairs, 'a'))
                &&& r->0.format == format_of(pair_int(pairs, 'f'))
                &&& r->0.id == pair_int(pairs, 'i')
                &&& r->0.width == pair_int(pairs, 's')
                &&& r->0.height == pair_int(pairs, 'v')
                &&& r->0.cell_width == pair_int(pairs, 'c')
                &&& r->0.cell_height == pair_int(pairs, 'r')
                &&& r->0.x_offset == pair_int(pairs, 'X')
                &&& r->0.y_offset == pair_int(pairs, 'Y')
                &&& r->0.z_index == match pair_int(pairs, 'z') {
                    Some(z) => Some(#[verifier::truncate] (z as i32)),
                    None => None,
                }
                &&& r->0.more_data == (pair_int(pairs, 'm') == Some(1u32))
                &&& r->0.placement_id == pair_int(pairs, 'p')
                &&& r->0.quiet == pair_int(pairs, 'q')
                &&& opt_bytes(r->0.payload) == kitty_payload(text)
            }),
            vstd::utf8::valid_utf8(data@) ==> lossy_text(data@) == vstd::utf8::decode_utf8(data@),
    {
        let text = utf8_lossy(data);
        let chars = chars_of(text.as_str());
        let semi = find_char(chars.as_slice(), ';');
        let params_end = match semi {
            Some(i) => i,
            None => chars.len(),
        };
        let ghost ptext = kitty_params_text(chars@);
        assert(chars@.subrange(0, params_end as int) =~= ptext);
        let params_text = crate::text::slice_chars(chars.as_slice(), 0, params_end);
        let pieces = split_chars(params_text.as_slice(), ',');
        let ghost ps = split_on(ptext, ',');
        self.params = Vec::new();
        let mut k: usize = 0;
        while k < pieces.len()
            invariant
                k <= pieces@.len(),
                ps == split_on(ptext, ','),
                pieces@.len() == ps.len(),
                forall|j: int| 0 <= j < pieces@.len() ==> #[trigger] pieces@[j]@ == ps[j],
                param_views(self.params@) == kitty_pairs(ps.take(k as int)),
            decreases pieces@.len() - k,
        {
            let piece = &pieces[k];
            let eq = find_char(piece.as_slice(), '=');
            assert(ps.take(k + 1).drop_last() =~= ps.take(k as int));
            assert(ps.take(k + 1).last() == piece@);
            match eq {
                Some(i) => {
                    if i > 0 {
                        let n = piece.len();
                        assert(i < n);
                        let value_chars = crate::text::slice_chars(piece.as_slice(), i + 1, piece.len());
                        assert(piece@.subrange(i + 1, piece@.len() as int) =~= piece@.skip(i + 1));
                        let value = string_from_chars(value_chars.as_slice());
                        let ghost before = self.params@;
                        self.params.push((piece[0], value));
                        assert(param_views(self.params@) =~= param_views(before).push((piece@[0], piece@.skip(i + 1))));
                    }
                },
                None => {},
            }
            k = k + 1;
        }
        assert(ps.take(pieces@.len() as int) =~= ps);
        let payload = match semi {
            Some(i) => {
                let n = chars.len();
                assert(i < n);
                let rest = crate::text::slice_chars(chars.as_slice(), i + 1, chars.len());
                assert(chars@.subrange(i + 1, chars@.len() as int) =~= chars@.skip(i + 1));
                let rest_text = string_from_chars(rest.as_slice());
                decode_base64(rest_text.as_str().as_bytes())
            },
            None => None,
        };
        let action = match self.get_char('a') {
            Some('T') => KittyAction::TransmitAndDisplay,
            Some('q') => KittyAction::Query,
            Some('p') => KittyAction::Display,
            Some('d') => KittyAction::Delete,
            Some('a') => KittyAction::Animate,
            Some('c') => KittyAction::Compose,
            _ => KittyAction::Transmit,
        };
        let format = match self.get_int('f') {
            Some(100) => ImageFormat::Png,
            _ => ImageFormat::Rgba,
        };
        let z_index = match self.get_int('z') {
            Some(z) => Some(#[verifier::truncate] (z as i32)),
            None => None,
        };
        Some(
            KittyCommand {
                action,
                format,
                id: self.get_int('i'),
                width: self.get_int('s'),
                height: self.get_int('v'),
                cell_width: self.get_int('c'),
                cell_height: self.get_int('r'),
                x_offset: self.get_int('X'),
                y_offset: self.get_int('Y'),
                z_index,
                more_data: self.get_int('m') == Some(1u32),
                placement_id: self.get_int('p'),
                quiet: self.get_int('q'),
                payload,
            },
        )
    }
}

/// Whether the images of `v` have distinct ids.
pub open spec fn distinct_ids(v: Seq<InlineImage>) -> bool {
    forall|i: int, j: int| 0 <= i < j < v.len() ==> (#[trigger] v[i]).id != (#[trigger] v[j]).id
}

/// Whether the partial data of `v` have distinct ids.
pub open spec fn distinct_partials(v: Seq<(ImageId, Vec<u8>)>) -> bool {
    forall|i: int, j: int| 0 <= i < j < v.len() ==> (#[trigger] v[i]).0 != (#[trigger] v[j]).0
}

/// The image of `v` with id `id`.
pub open spec fn image_lookup(v: Seq<InlineImage>, id: ImageId) -> Option<InlineImage> {
    if exists|i: int| 0 <= i < v.len() && (#[trigger] v[i]).id == id {
        Some(v[choose|i: int| 0 <= i < v.len() && (#[trigger] v[i]).id == id])
    } else {
        None
    }
}

/// The partial data of `v` for id `id`.
pub open spec fn partial_lookup(v: Seq<(ImageId, Vec<u8>)>, id: ImageId) -> Option<Seq<u8>> {
    if exists|i: int| 0 <= i < v.len() && (#[trigger] v[i]).0 == id {
        Some(v[choose|i: int| 0 <= i < v.len() && (#[trigger] v[i]).0 == id].1@)
    } else {
        None
    }
}

proof fn lemma_image_at(v: Seq<InlineImage>, i: int)
    requires
        distinct_ids(v),
        0 <= i < v.len(),
    ensures
        image_lookup(v, v[i].id) == Some(v[i]),
{
    let j = choose|j: int| 0 <= j < v.len() && (#[trigger] v[j]).id == v[i].id;
    if j != i {
        if j < i {
            assert(v[j].id != v[i].id);
        } else {
            assert(v[i].id != v[j].id);
        }
    }
}

proof fn lemma_partial_at(v: Seq<(ImageId, Vec<u8>)>, i: int)
    requires
        distinct_partials(v),
        0 <= i < v.len(),
    ensures
        partial_lookup(v, v[i].0) == Some(v[i].1@),
{
    let j = choose|j: int| 0 <= j < v.len() && (#[trigger] v[j]).0 == v[i].0;
    if j != i {
        if j < i {
            assert(v[j].0 != v[i].0);
        } else {
            assert(v[i].0 != v[j].0);
        }
    }
}

/// Whether the placement `p` covers the cell (`row`, `col`).
pub open spec fn covers(p: ImagePlacement, row: usize, col: usize) -> bool {
    p.visible && p.row <= row && row < p.row + p.height_cells && p.col <= col && col < p.col + p.width_cells
}

/// Whether the placement `p` reaches into the rows `start..end`.
pub open spec fn in_rows(p: ImagePlacement, start: usize, end: usize) -> bool {
    p.row + p.height_cells > start && p.row < end
}

/// Whether a placement of `ps` shows the image `k`.
pub open spec fn shown(ps: Seq<ImagePlacement>, k: ImageId) -> bool {
    exists|j: int| 0 <= j < ps.len() && (#[trigger] ps[j]).image_id == k
}

/// Which placements survive: by image id (those not of `id`), or by rows
/// (those reaching into `start..end`).
pub open spec fn keep_placement(p: ImagePlacement, id: ImageId, start: usize, end: usize, by_id: bool) -> bool {
    if by_id {
        p.image_id != id
    } else {
        in_rows(p, start, end)
    }
}

/// The placements behind a list of references.
pub open spec fn placement_derefs(v: Seq<&ImagePlacement>) -> Seq<ImagePlacement> {
    v.map_values(|p: &ImagePlacement| *p)
}

/// The images of the terminal, their placements, the next id to hand out
/// and the data of images still arriving in chunks.
#[derive(Debug)]
pub struct ImageStore {
    images: Vec<InlineImage>,
    placements: Vec<ImagePlacement>,
    next_id: ImageId,
    partial_data: Vec<(ImageId, Vec<u8>)>,
}

impl ImageStore {
    /// Ids are distinct among images and among partial data.
    pub closed spec fn well_formed(self) -> bool {
        distinct_ids(self.images@) && distinct_partials(self.partial_data@)
    }

    /// The image with id `id`.
    pub closed spec fn image(self, id: ImageId) -> Option<InlineImage> {
        image_lookup(self.images@, id)
    }

    /// The placements, in the order they were added.
    pub closed spec fn placements(self) -> Seq<ImagePlacement> {
        self.placements@
    }

    /// The next id `next_id` hands out.
    pub closed spec fn next(self) -> ImageId {
        self.next_id
    }

    /// The data received so far for the image `id`.
    pub closed spec fn partial(self, id: ImageId) -> Option<Seq<u8>> {
        partial_lookup(self.partial_data@, id)
    }

    /// An empty store.
    pub fn new() -> (s: Self)
        ensures
            s.well_formed(),
            forall|id: ImageId| #[trigger] s.image(id) is None && s.partial(id) is None,
            s.placements().len() == 0,
            s.next() == 0,
    {
        ImageStore { images: Vec::new(), placements: Vec::new(), next_id: 0, partial_data: Vec::new() }
    }

    /// The index of the image `id`.
    fn image_index(&self, id: ImageId) -> (r: Option<usize>)
        ensures
            match r {
                Some(i) => i < self.images@.len() && self.images@[i as int].id == id,
                None => forall|j: int| 0 <= j < self.images@.len() ==> (#[trigger] self.images@[j]).id != id,
            },
    {
        let mut i: usize = 0;
        while i < self.images.len()
            invariant
                i <= self.images@.len(),
                forall|j: int| 0 <= j < i ==> (#[trigger] self.images@[j]).id != id,
            decreases self.images@.len() - i,
        {
            if self.images[i].id == id {
                return Some(i);
            }
            i = i + 1;
        }
        None
    }

    /// The index of the partial data of `id`.
    fn partial_index(&self, id: ImageId) -> (r: Option<usize>)
        ensures
            match r {
                Some(i) => i < self.partial_data@.len() && self.partial_data@[i as int].0 == id,
                None => forall|j: int| 0 <= j < self.partial_data@.len() ==> (#[trigger] self.partial_data@[j]).0 != id,
            },
    {
        let mut i: usize = 0;
        while i < self.partial_data.len()
            invariant
                i <= self.partial_data@.len(),
                forall|j: int| 0 <= j < i ==> (#[trigger] self.partial_data@[j]).0 != id,
            decreases self.partial_data@.len() - i,
        {
            if self.partial_data[i].0 == id {
                return Some(i);
            }
            i = i + 1;
        }
        None
    }

    /// Stores `image` under its id, in place of an image with that id.
    pub fn add_image(&mut self, image: InlineImage) -> (id: ImageId)
        requires
            old(self).well_formed(),
        ensures
            final(self).well_formed(),
            id == image.id,
            forall|k: ImageId| #[trigger] final(self).image(k) == if k == id {
                Some(image)
            } else {
                old(self).image(k)
            },
            final(self).placements() == old(self).placements(),
            final(self).next() == old(self).next(),
            forall|k: ImageId| #[trigger] final(self).partial(k) == old(self).partial(k),
    {
        let id = image.id;
        let ghost old_images = self.images@;
        match self.image_index(id) {
            Some(i) => {
                self.images.set(i, image);
                proof {
                    let v = self.images@;
                    assert forall|a: int, b: int| 0 <= a < b < v.len() implies (#[trigger] v[a]).id != (#[trigger] v[b]).id by {
                        assert(old_images[a].id != old_images[b].id);
                    }
                    lemma_image_at(v, i as int);
                    assert forall|k: ImageId| #[trigger] image_lookup(v, k) == if k == id {
                        Some(image)
                    } else {
                        image_lookup(old_images, k)
                    } by {
                        if k != id {
                            if exists|j: int| 0 <= j < old_images.len() && (#[trigger] old_images[j]).id == k {
                                let j = choose|j: int| 0 <= j < old_images.len() && (#[trigger] old_images[j]).id == k;
                                lemma_image_at(old_images, j);
                                assert(v[j] == old_images[j]);
                                lemma_image_at(v, j);
                            } else {
                                assert forall|j: int| 0 <= j < v.len() implies (#[trigger] v[j]).id != k by {
                                    if j != i {
                                        assert(v[j] == old_images[j]);
                                    }
                                }
                            }
                        }
                    }
                }
            },
            None => {
                self.images.push(image);
                proof {
                    let v = self.images@;
                    let n = old_images.len() as int;
                    assert forall|a: int, b: int| 0 <= a < b < v.len() implies (#[trigger] v[a]).id != (#[trigger] v[b]).id by {
                        if b == n {
                            assert(v[a] == old_images[a]);
                        } else {
                            assert(old_images[a].id != old_images[b].id);
                        }
                    }
                    lemma_image_at(v, n);
                    assert forall|k: ImageId| #[trigger] image_lookup(v, k) == if k == id {
                        Some(image)
                    } else {
                        image_lookup(old_images, k)
                    } by {
                        if k != id {
                            if exists|j: int| 0 <= j < old_images.len() && (#[trigger] old_images[j]).id == k {
                                let j = choose|j: int| 0 <= j < old_images.len() && (#[trigger] old_images[j]).id == k;
                                lemma_image_at(old_images, j);
                                assert(v[j] == old_images[j]);
                                lemma_image_at(v, j);
                            } else {
                                assert forall|j: int| 0 <= j < v.len() implies (#[trigger] v[j]).id != k by {
                                    if j < n {
                                        assert(v[j] == old_images[j]);
                                    }
                                }
                            }
                        }
                    }
                }
            },
        }
        id
    }

    /// The image with id `id`.
    pub fn get_image(&self, id: ImageId) -> (r: Option<&InlineImage>)
        requires
            self.well_formed(),
        ensures
            match r {
                Some(img) => self.image(id) == Some(*img),
                None => self.image(id) is None,
            },
    {
        match self.image_index(id) {
            Some(i) => {
                proof {
                    lemma_image_at(self.images@, i as int);
                }
                Some(&self.images[i])
            },
            None => None,
        }
    }

    /// Adds a placement at the end.
    pub fn add_placement(&mut self, placement: ImagePlacement)
        requires
            old(self).well_formed(),
        ensures
            final(self).well_formed(),
            final(self).placements() == old(self).placements().push(placement),
            forall|k: ImageId| #[trigger] final(self).image(k) == old(self).image(k),
            forall|k: ImageId| #[trigger] final(self).partial(k) == old(self).partial(k),
            final(self).next() == old(self).next(),
    {
        self.placements.push(placement);
    }

    /// The visible placements, in order.
    pub fn visible_placements(&self) -> (r: Vec<&ImagePlacement>)
        ensures
            placement_derefs(r@) == self.placements().filter(|p: ImagePlacement| p.visible),
    {
        let ghost pred = |p: ImagePlacement| p.visible;
        let mut r: Vec<&ImagePlacement> = Vec::new();
        let mut i: usize = 0;
        while i < self.placements.len()
            invariant
                i <= self.placements@.len(),
                pred == |p: ImagePlacement| p.visible,
                placement_derefs(r@) == self.placements@.take(i as int).filter(pred),
            decreases self.placements@.len() - i,
        {
            proof {
                reveal(Seq::filter);
                assert(self.placements@.take(i + 1).drop_last() =~= self.placements@.take(i as int));
            }
            let ghost before = r@;
            if self.placements[i].visible {
                r.push(&self.placements[i]);
                assert(placement_derefs(r@) =~= placement_derefs(before).push(self.placements@[i as int]));
            }
            i = i + 1;
        }
        assert(self.placements@.take(self.placements@.len() as int) =~= self.placements@);
        r
    }

    /// The visible placements that cover the cell (`row`, `col`), in order.
    pub fn placements_at(&self, row: usize, col: usize) -> (r: Vec<&ImagePlacement>)
        ensures
            placement_derefs(r@) == self.placements().filter(|p: ImagePlacement| covers(p, row, col)),
    {
        let ghost pred = |p: ImagePlacement| covers(p, row, col);
        let mut r: Vec<&ImagePlacement> = Vec::new();
        let mut i: usize = 0;
        while i < self.placements.len()
            invariant
                i <= self.placements@.len(),
                pred == |p: ImagePlacement| covers(p, row, col),
                placement_derefs(r@) == self.placements@.take(i as int).filter(pred),
            decreases self.placements@.len() - i,
        {
            proof {
                reveal(Seq::filter);
                assert(self.placements@.take(i + 1).drop_last() =~= self.placements@.take(i as int));
            }
            let p = &self.placements[i];
            let ghost before = r@;
            if p.visible && row >= p.row && row - p.row < p.height_cells && col >= p.col && col - p.col < p.width_cells {
                r.push(p);
                assert(placement_derefs(r@) =~= placement_derefs(before).push(self.placements@[i as int]));
            }
            i = i + 1;
        }
        assert(self.placements@.take(self.placements@.len() as int) =~= self.placements@);
        r
    }

    /// Hands out the next id.
    pub fn next_id(&mut self) -> (id: ImageId)
        requires
            old(self).well_formed(),
            old(self).next() < u32::MAX,
        ensures
            final(self).well_formed(),
            id == old(self).next(),
            final(self).next() == old(self).next() + 1,
            final(self).placements() == old(self).placements(),
            forall|k: ImageId| #[trigger] final(self).image(k) == old(self).image(k),
            forall|k: ImageId| #[trigger] final(self).partial(k) == old(self).partial(k),
    {
        let id = self.next_id;
        self.next_id = self.next_id + 1;
        id
    }

    /// Adds `data` to what has arrived for the image `id`.
    pub fn append_partial(&mut self, id: ImageId, data: Vec<u8>)
        requires
            old(self).well_formed(),
        ensures
            final(self).well_formed(),
            forall|k: ImageId| #[trigger] final(self).partial(k) == if k == id {
                Some(
                    match old(self).partial(id) {
                        Some(d) => d,
                        None => Seq::<u8>::empty(),
                    } + data@,
                )
            } else {
                old(self).partial(k)
            },
            final(self).placements() == old(self).placements(),
            forall|k: ImageId| #[trigger] final(self).image(k) == old(self).image(k),
            final(self).next() == old(self).next(),
    {
        let ghost old_parts = self.partial_data@;
        let (pos, mut buf) = match self.partial_index(id) {
            Some(i) => {
                proof {
                    lemma_partial_at(old_parts, i as int);
                }
                let (_, b) = self.partial_data.remove(i);
                (i, b)
            },
            None => (self.partial_data.len(), Vec::new()),
        };
        let ghost mid = self.partial_data@;
        let ghost prior = buf@;
        let mut k: usize = 0;
        while k < data.len()
            invariant
                k <= data@.len(),
                buf@ == prior + data@.take(k as int),
            decreases data@.len() - k,
        {
            buf.push(data[k]);
            assert(data@.take(k + 1) =~= data@.take(k as int).push(data@[k as int]));
            k = k + 1;
        }
        assert(data@.take(data@.len() as int) =~= data@);
        self.partial_data.insert(pos, (id, buf));
        proof {
            let v = self.partial_data@;
            assert(v[pos as int].0 == id);
            if pos < old_parts.len() {
                assert(v =~= old_parts.update(pos as int, (id, buf)));
            } else {
                assert(v =~= old_parts.push((id, buf)));
            }
            assert forall|a: int, b: int| 0 <= a < b < v.len() implies (#[trigger] v[a]).0 != (#[trigger] v[b]).0 by {
                if a != pos && b != pos {
                    assert(old_parts[a].0 != old_parts[b].0);
                } else if pos == old_parts.len() {
                    assert(v[a] == old_parts[a]);
                } else if a == pos {
                    assert(old_parts[a].0 != old_parts[b].0);
                } else {
                    assert(old_parts[a].0 != old_parts[b].0);
                }
            }
            lemma_partial_at(v, pos as int);
            assert forall|q: ImageId| #[trigger] partial_lookup(v, q) == if q == id {
                Some(
                    match partial_lookup(old_parts, id) {
                        Some(d) => d,
                        None => Seq::<u8>::empty(),
                    } + data@,
                )
            } else {
                partial_lookup(old_parts, q)
            } by {
                if q != id {
                    if exists|j: int| 0 <= j < old_parts.len() && (#[trigger] old_parts[j]).0 == q {
                        let j = choose|j: int| 0 <= j < old_parts.len() && (#[trigger] old_parts[j]).0 == q;
                        lemma_partial_at(old_parts, j);
                        assert(j != pos);
                        assert(v[j] == old_parts[j]);
                        lemma_partial_at(v, j);
                    } else {
                        assert forall|j: int| 0 <= j < v.len() implies (#[trigger] v[j]).0 != q by {
                            if j != pos {
                                assert(v[j] == old_parts[j]);
                            }
                        }
                    }
                } else {
                    if pos == old_parts.len() {
                        assert(prior =~= Seq::<u8>::empty());
                        assert forall|j: int| 0 <= j < old_parts.len() implies (#[trigger] old_parts[j]).0 != q by {}
                    }
                }
            }
        }
    }

    /// Takes the data that has arrived for the image `id`.
    pub fn take_partial(&mut self, id: ImageId) -> (r: Option<Vec<u8>>)
        requires
            old(self).well_formed(),
        ensures
            final(self).well_formed(),
            opt_bytes(r) == old(self).partial(id),
            forall|k: ImageId| #[trigger] final(self).partial(k) == if k == id {
                None
            } else {
                old(self).partial(k)
            },
            final(self).placements() == old(self).placements(),
            forall|k: ImageId| #[trigger] final(self).image(k) == old(self).image(k),
            final(self).next() == old(self).next(),
    {
        let ghost old_parts = self.partial_data@;
        match self.partial_index(id) {
            Some(i) => {
                proof {
                    lemma_partial_at(old_parts, i as int);
                }
                let (_, b) = self.partial_data.remove(i);
                proof {
                    let v = self.partial_data@;
                    assert(v =~= old_parts.remove(i as int));
                    assert forall|a: int, c: int| 0 <= a < c < v.len() implies (#[trigger] v[a]).0 != (#[trigger] v[c]).0 by {
                        let a2 = if a < i { a } else { a + 1 };
                        let c2 = if c < i { c } else { c + 1 };
                        assert(v[a] == old_parts[a2]);
                        assert(v[c] == old_parts[c2]);
                        assert(old_parts[a2].0 != old_parts[c2].0);
                    }
                    assert forall|q: ImageId| #[trigger] partial_lookup(v, q) == if q == id {
                        None
                    } else {
                        partial_lookup(old_parts, q)
                    } by {
                        if q == id {
                            assert forall|j: int| 0 <= j < v.len() implies (#[trigger] v[j]).0 != q by {
                                let j2 = if j < i { j } else { j + 1 };
                                assert(v[j] == old_parts[j2]);
                                if j2 < i {
                                    assert(old_parts[j2].0 != old_parts[i as int].0);
                                } else {
                                    assert(old_parts[i as int].0 != old_parts[j2].0);
                                }
                            }
                        } else if exists|j: int| 0 <= j < old_parts.len() && (#[trigger] old_parts[j]).0 == q {
                            let j = choose|j: int| 0 <= j < old_parts.len() && (#[trigger] old_parts[j]).0 == q;
                            lemma_partial_at(old_parts, j);
                            let j2 = if j < i { j } else { j - 1 };
                            assert(v[j2] == old_parts[j]);
                            lemma_partial_at(v, j2);
                        } else {
                            assert forall|j: int| 0 <= j < v.len() implies (#[trigger] v[j]).0 != q by {
                                let j2 = if j < i { j } else { j + 1 };
                                assert(v[j] == old_parts[j2]);
                            }
                        }
                    }
                }
                Some(b)
            },
            None => None,
        }
    }

    /// Removes the image at index `i`.
    fn remove_image_at(&mut self, i: usize)
        requires
            old(self).well_formed(),
            i < old(self).images@.len(),
        ensures
            final(self).well_formed(),
            forall|k: ImageId| #[trigger] final(self).image(k) == if k == old(self).images@[i as int].id {
                None
            } else {
                old(self).image(k)
            },
            final(self).images@ == old(self).images@.remove(i as int),
            final(self).partial_data@ == old(self).partial_data@,
            final(self).placements() == old(self).placements(),
            forall|k: ImageId| #[trigger] final(self).partial(k) == old(self).partial(k),
            final(self).next() == old(self).next(),
    {
        let ghost old_images = self.images@;
        let ghost id = old_images[i as int].id;
        self.images.remove(i);
        proof {
            let v = self.images@;
            assert(v =~= old_images.remove(i as int));
            assert forall|a: int, c: int| 0 <= a < c < v.len() implies (#[trigger] v[a]).id != (#[trigger] v[c]).id by {
                let a2 = if a < i { a } else { a + 1 };
                let c2 = if c < i { c } else { c + 1 };
                assert(v[a] == old_images[a2]);
                assert(v[c] == old_images[c2]);
                assert(old_images[a2].id != old_images[c2].id);
            }
            assert forall|q: ImageId| #[trigger] image_lookup(v, q) == if q == id {
                None
            } else {
                image_lookup(old_images, q)
            } by {
                if q == id {
                    assert forall|j: int| 0 <= j < v.len() implies (#[trigger] v[j]).id != q by {
                        let j2 = if j < i { j } else { j + 1 };
                        assert(v[j] == old_images[j2]);
                        if j2 < i {
                            assert(old_images[j2].id != old_images[i as int].id);
                        } else {
                            assert(old_images[i as int].id != old_images[j2].id);
                        }
                    }
                } else if exists|j: int| 0 <= j < old_images.len() && (#[trigger] old_images[j]).id == q {
                    let j = choose|j: int| 0 <= j < old_images.len() && (#[trigger] old_images[j]).id == q;
                    lemma_image_at(old_images, j);
                    let j2 = if j < i { j } else { j - 1 };
                    assert(v[j2] == old_images[j]);
                    lemma_image_at(v, j2);
                } else {
                    assert forall|j: int| 0 <= j < v.len() implies (#[trigger] v[j]).id != q by {
                        let j2 = if j < i { j } else { j + 1 };
                        assert(v[j] == old_images[j2]);
                    }
                }
            }
        }
    }

    /// Removes the image `id` and its placements.
    pub fn remove_image(&mut self, id: ImageId)
        requires
            old(self).well_formed(),
        ensures
            final(self).well_formed(),
            forall|k: ImageId| #[trigger] final(self).image(k) == if k == id {
                None
            } else {
                old(self).image(k)
            },
            final(self).placements() == old(self).placements().filter(|p: ImagePlacement| p.image_id != id),
            forall|k: ImageId| #[trigger] final(self).partial(k) == old(self).partial(k),
            final(self).next() == old(self).next(),
    {
        match self.image_index(id) {
            Some(i) => {
                self.remove_image_at(i);
            },
            None => {
                proof {
                    assert forall|k: ImageId| #[trigger] image_lookup(self.images@, k) == if k == id {
                        None
                    } else {
                        image_lookup(self.images@, k)
                    } by {}
                }
            },
        }
        let ghost mid = *self;
        self.retain_placements_where(id, 0, 0, true);
        proof {
            assert((|p: ImagePlacement| keep_placement(p, id, 0, 0, true)) =~= (|p: ImagePlacement| p.image_id != id));
            assert forall|k: ImageId| #[trigger] self.image(k) == mid.image(k) by {}
            assert forall|k: ImageId| #[trigger] self.partial(k) == mid.partial(k) by {}
        }
    }

    /// Keeps the placements that `keep_placement` keeps.
    fn retain_placements_where(&mut self, id: ImageId, start: usize, end: usize, by_id: bool)
        requires
            old(self).well_formed(),
        ensures
            final(self).well_formed(),
            final(self).placements() == old(self).placements().filter(
                |p: ImagePlacement| keep_placement(p, id, start, end, by_id),
            ),
            final(self).images@ == old(self).images@,
            final(self).partial_data@ == old(self).partial_data@,
            final(self).next() == old(self).next(),
    {
        let ghost pred = |p: ImagePlacement| keep_placement(p, id, start, end, by_id);
        let mut kept: Vec<ImagePlacement> = Vec::new();
        let mut i: usize = 0;
        while i < self.placements.len()
            invariant
                i <= self.placements@.len(),
                pred == |p: ImagePlacement| keep_placement(p, id, start, end, by_id),
                kept@ == self.placements@.take(i as int).filter(pred),
            decreases self.placements@.len() - i,
        {
            proof {
                reveal(Seq::filter);
                assert(self.placements@.take(i + 1).drop_last() =~= self.placements@.take(i as int));
            }
            let p = self.placements[i];
            let keep = if by_id {
                p.image_id != id
            } else {
                (p.row > start || p.height_cells > start - p.row) && p.row < end
            };
            if keep {
                kept.push(p);
            }
            i = i + 1;
        }
        assert(self.placements@.take(self.placements@.len() as int) =~= self.placements@);
        self.placements = kept;
    }

    /// Forgets the placements outside the rows `start..end`, then the images
    /// that no placement shows.
    pub fn gc(&mut self, start: usize, end: usize)
        requires
            old(self).well_formed(),
        ensures
            final(self).well_formed(),
            final(self).placements() == old(self).placements().filter(|p: ImagePlacement| in_rows(p, start, end)),
            forall|k: ImageId| #[trigger] final(self).image(k) == if shown(final(self).placements(), k) {
                old(self).image(k)
            } else {
                None
            },
            forall|k: ImageId| #[trigger] final(self).partial(k) == old(self).partial(k),
            final(self).next() == old(self).next(),
    {
        self.retain_placements_where(0, start, end, false);
        proof {
            assert((|p: ImagePlacement| keep_placement(p, 0, start, end, false)) =~= (|p: ImagePlacement| in_rows(p, start, end)));
        }
        let ghost mid_images = self.images@;
        let mut i: usize = self.images.len();
        proof {
            assert forall|k: ImageId| #[trigger] image_lookup(self.images@, k) == if !shown(self.placements@, k) && exists|j: int|
                i <= j < mid_images.len() && (#[trigger] mid_images[j]).id == k {
                None
            } else {
                image_lookup(mid_images, k)
            } by {}
        }
        while i > 0
            invariant
                i <= self.images@.len(),
                self.images@.len() <= mid_images.len(),
                self.well_formed(),
                forall|j: int| 0 <= j < i ==> #[trigger] self.images@[j] == mid_images[j],
                forall|k: ImageId| #[trigger] image_lookup(self.images@, k) == if !shown(self.placements@, k) && exists|j: int|
                    i <= j < mid_images.len() && (#[trigger] mid_images[j]).id == k {
                    None
                } else {
                    image_lookup(mid_images, k)
                },
                self.placements@ == old(self).placements@.filter(|p: ImagePlacement| in_rows(p, start, end)),
                self.partial_data@ == old(self).partial_data@,
                self.next_id == old(self).next_id,
            decreases i,
        {
            i = i - 1;
            let k = self.images[i].id;
            assert(mid_images[i as int].id == k);
            let ghost before = self.images@;
            let ghost ps = self.placements@;
            let ghost i_old = i + 1;
            assert(forall|q: ImageId| #[trigger] image_lookup(before, q) == if !shown(ps, q) && exists|j: int|
                i_old <= j < mid_images.len() && (#[trigger] mid_images[j]).id == q {
                None
            } else {
                image_lookup(mid_images, q)
            });
            if !self.is_shown(k) {
                self.remove_image_at(i);
                proof {
                    assert forall|q: ImageId| #[trigger] image_lookup(self.images@, q) == if !shown(self.placements@, q) && exists|j: int|
                        i <= j < mid_images.len() && (#[trigger] mid_images[j]).id == q {
                        None
                    } else {
                        image_lookup(mid_images, q)
                    } by {
                        assert(self.image(q) == image_lookup(self.images@, q));
                        let b = image_lookup(before, q);
                        assert(shown(self.placements@, q) == shown(ps, q));
                        if q == k {
                            assert(mid_images[i as int].id == q);
                            assert(before[i as int].id == q);
                            assert(self.image(q) is None);
                            assert(!shown(ps, q));
                            assert(exists|j: int| i <= j < mid_images.len() && (#[trigger] mid_images[j]).id == q);
                            assert(!shown(self.placements@, q));
                        } else {
                            assert(image_lookup(self.images@, q) == b);
                            if exists|j: int| i <= j < mid_images.len() && (#[trigger] mid_images[j]).id == q {
                                let j = choose|j: int| i <= j < mid_images.len() && (#[trigger] mid_images[j]).id == q;
                                assert(j != i);
                                assert(i_old <= j);
                            }
                        }
                    }
                }
            } else {
                proof {
                    assert forall|q: ImageId| #[trigger] image_lookup(self.images@, q) == if !shown(self.placements@, q) && exists|j: int|
                        i <= j < mid_images.len() && (#[trigger] mid_images[j]).id == q {
                        None
                    } else {
                        image_lookup(mid_images, q)
                    } by {
                        let b = image_lookup(before, q);
                        if q != k {
                            if exists|j: int| i <= j < mid_images.len() && (#[trigger] mid_images[j]).id == q {
                                let j = choose|j: int| i <= j < mid_images.len() && (#[trigger] mid_images[j]).id == q;
                                assert(j != i);
                                assert(i_old <= j);
                            }
                        }
                    }
                }
            }
        }
        proof {
            assert forall|k: ImageId| #[trigger] self.image(k) == if shown(self.placements@, k) {
                image_lookup(mid_images, k)
            } else {
                None
            } by {
                if !shown(self.placements@, k) && !(exists|j: int| 0 <= j < mid_images.len() && (#[trigger] mid_images[j]).id == k) {
                    assert(image_lookup(mid_images, k) is None);
                }
            }
        }
    }

    /// Whether a placement shows the image `k`.
    fn is_shown(&self, k: ImageId) -> (b: bool)
        ensures
            b == shown(self.placements@, k),
    {
        let mut i: usize = 0;
        while i < self.placements.len()
            invariant
                i <= self.placements@.len(),
                forall|j: int| 0 <= j < i ==> (#[trigger] self.placements@[j]).image_id != k,
            decreases self.placements@.len() - i,
        {
            if self.placements[i].image_id == k {
                return true;
            }
            i = i + 1;
        }
        false
    }

    /// Forgets all images, placements and partial data.
    pub fn clear(&mut self)
        requires
            old(self).well_formed(),
        ensures
            final(self).well_formed(),
            forall|k: ImageId| #[trigger] final(self).image(k) is None && final(self).partial(k) is None,
            final(self).placements().len() == 0,
            final(self).next() == old(self).next(),
    {
        self.images = Vec::new();
        self.placements = Vec::new();
        self.partial_data = Vec::new();
    }
}

/// Whether the byte `b` is an ASCII digit.
pub open spec fn is_digit_byte(b: u8) -> bool {
    48 <= b <= 57
}

/// The number of digits in `s` from `from` on.
pub open spec fn digit_run(s: Seq<u8>, from: int) -> nat
    decreases s.len() - from,
{
    if 0 <= from < s.len() && is_digit_byte(s[from]) {
        1 + digit_run(s, from + 1)
    } else {
        0
    }
}

/// The decimal value of the digits `d`.
pub open spec fn bytes_value(d: Seq<u8>) -> nat
    decreases d.len(),
{
    if d.len() == 0 {
        0
    } else {
        bytes_value(d.drop_last()) * 10 + (d.last() - 48) as nat
    }
}

/// The value of the digits of `s` from `from` on (0 where there are none).
pub open spec fn number_at(s: Seq<u8>, from: int) -> nat {
    bytes_value(s.subrange(from, from + digit_run(s, from)))
}

proof fn lemma_digit_run_bound(s: Seq<u8>, from: int)
    requires
        0 <= from <= s.len(),
    ensures
        from + digit_run(s, from) <= s.len(),
        forall|k: int| from <= k < from + digit_run(s, from) ==> is_digit_byte(#[trigger] s[k]),
        from + digit_run(s, from) < s.len() ==> !is_digit_byte(s[from + digit_run(s, from)]),
    decreases s.len() - from,
{
    if from < s.len() && is_digit_byte(s[from]) {
        lemma_digit_run_bound(s, from + 1);
    }
}

proof fn lemma_bytes_value_prefix(d: Seq<u8>, k: int)
    requires
        0 <= k <= d.len(),
        forall|i: int| 0 <= i < d.len() ==> is_digit_byte(#[trigger] d[i]),
    ensures
        bytes_value(d.take(k)) <= bytes_value(d),
    decreases d.len(),
{
    if k < d.len() {
        assert(d.drop_last().take(k) =~= d.take(k));
        lemma_bytes_value_prefix(d.drop_last(), k);
    } else {
        assert(d.take(k) =~= d);
    }
}

/// The decimal number at `from` in `data` and the number of its digits.
pub fn parse_number(data: &[u8], from: usize) -> (r: (u32, usize))
    requires
        from <= data@.len(),
        number_at(data@, from as int) <= u32::MAX,
    ensures
        r.0 == number_at(data@, from as int),
        r.1 == digit_run(data@, from as int),
{
    proof {
        lemma_digit_run_bound(data@, from as int);
    }
    let ghost run = digit_run(data@, from as int);
    let ghost d = data@.subrange(from as int, from + run);
    let mut value: u32 = 0;
    let mut i: usize = from;
    while i < data.len() && data[i] >= 48 && data[i] <= 57
        invariant
            from <= i <= from + run,
            from + run <= data@.len(),
            d == data@.subrange(from as int, from + run),
            forall|k: int| from <= k < from + run ==> is_digit_byte(#[trigger] data@[k]),
            from + run < data@.len() ==> !is_digit_byte(data@[from + run]),
            bytes_value(d) <= u32::MAX,
            value == bytes_value(data@.subrange(from as int, i as int)),
        decreases data@.len() - i,
    {
        proof {
            if i == from + run {
                assert(false);
            }
            assert(data@.subrange(from as int, i + 1).drop_last() =~= data@.subrange(from as int, i as int));
            assert(d.take(i + 1 - from) =~= data@.subrange(from as int, i + 1));
            lemma_bytes_value_prefix(d, i + 1 - from);
        }
        value = value * 10 + (data[i] - 48) as u32;
        i = i + 1;
    }
    proof {
        if i < from + run {
            assert(is_digit_byte(data@[i as int]));
        }
    }
    (value, i - from)
}

/// The colour set to index 0 to 15 of a new Sixel palette (VGA colours).
pub open spec fn vga_color(index: u8) -> (u8, u8, u8) {
    match index {
        0 => (0, 0, 0),
        1 => (128, 0, 0),
        2 => (0, 128, 0),
        3 => (128, 128, 0),
        4 => (0, 0, 128),
        5 => (128, 0, 128),
        6 => (0, 128, 128),
        7 => (192, 192, 192),
        8 => (128, 128, 128),
        9 => (255, 0, 0),
        10 => (0, 255, 0),
        11 => (255, 255, 0),
        12 => (0, 0, 255),
        13 => (255, 0, 255),
        14 => (0, 255, 255),
        15 => (255, 255, 255),
        _ => (0, 0, 0),
    }
}

/// The VGA colour with index `index` (black beyond 15).
pub fn default_vga_color(index: u8) -> (c: (u8, u8, u8))
    ensures
        c == vga_color(index),
{
    match index {
        0 => (0, 0, 0),
        1 => (128, 0, 0),
        2 => (0, 128, 0),
        3 => (128, 128, 0),
        4 => (0, 0, 128),
        5 => (128, 0, 128),
        6 => (0, 128, 128),
        7 => (192, 192, 192),
        8 => (128, 128, 128),
        9 => (255, 0, 0),
        10 => (0, 255, 0),
        11 => (255, 255, 0),
        12 => (0, 0, 255),
        13 => (255, 0, 255),
        14 => (0, 255, 255),
        15 => (255, 255, 255),
        _ => (0, 0, 0),
    }
}

/// Whether `b` is a Sixel data character (`?` to `~`).
pub open spec fn is_sixel_byte(b: u8) -> bool {
    63 <= b <= 126
}

/// A colour definition of Sixel data: palette index, colour space (2 for
/// RGB in percent, else HLS) and the three components.
#[derive(Debug, Clone, Copy, PartialEq, Eq, Structural)]
pub struct SixelColor {
    pub index: u32,
    pub space: u32,
    pub a: u32,
    pub b: u32,
    pub c: u32,
}

/// Whether the number at `j` fits in a `u32`.
pub open spec fn num_ok(s: Seq<u8>, j: int) -> bool {
    number_at(s, j) <= u32::MAX
}

/// The end of a colour introducer `#index[;space;a;b;c]` that starts at
/// `i`, and the colour it defines when all five numbers are there.
pub open spec fn color_intro(s: Seq<u8>, i: int) -> (int, Option<SixelColor>) {
    let j0 = i + 1;
    let idx = number_at(s, j0);
    let j1 = j0 + digit_run(s, j0);
    if j1 < s.len() && s[j1] == 59 {
        let j2 = j1 + 1;
        let ct = number_at(s, j2);
        let j3 = j2 + digit_run(s, j2);
        if j3 < s.len() && s[j3] == 59 {
            let j4 = j3 + 1;
            let p1 = number_at(s, j4);
            let j5 = j4 + digit_run(s, j4);
            if j5 < s.len() && s[j5] == 59 {
                let j6 = j5 + 1;
                let p2 = number_at(s, j6);
                let j7 = j6 + digit_run(s, j6);
                if j7 < s.len() && s[j7] == 59 {
                    let j8 = j7 + 1;
                    let p3 = number_at(s, j8);
                    let j9 = j8 + digit_run(s, j8);
                    (
                        j9,
                        Some(
                            SixelColor {
                                index: idx as u32,
                                space: ct as u32,
                                a: p1 as u32,
                                b: p2 as u32,
                                c: p3 as u32,
                            },
                        ),
                    )
                } else {
                    (j7, None)
                }
            } else {
                (j5, None)
            }
        } else {
            (j3, None)
        }
    } else {
        (j1, None)
    }
}

/// Whether every number that a colour introducer at `i` reads fits in a
/// `u32`.
pub open spec fn color_intro_ok(s: Seq<u8>, i: int) -> bool {
    let j0 = i + 1;
    let j1 = j0 + digit_run(s, j0);
    &&& num_ok(s, j0)
    &&& j1 < s.len() && s[j1] == 59 ==> {
        let j2 = j1 + 1;
        let j3 = j2 + digit_run(s, j2);
        &&& num_ok(s, j2)
        &&& j3 < s.len() && s[j3] == 59 ==> {
            let j4 = j3 + 1;
            let j5 = j4 + digit_run(s, j4);
            &&& num_ok(s, j4)
            &&& j5 < s.len() && s[j5] == 59 ==> {
                let j6 = j5 + 1;
                let j7 = j6 + digit_run(s, j6);
                &&& num_ok(s, j6)
                &&& j7 < s.len() && s[j7] == 59 ==> num_ok(s, j7 + 1)
            }
        }
    }
}

/// The state of the first pass over Sixel data: position, column, row of
/// the current band, widest column so far, and the colours defined.
pub struct ScanState {
    pub i: int,
    pub x: int,
    pub y: int,
    pub max_x: int,
    pub defs: Seq<SixelColor>,
}

/// The larger of `a` and `b`.
pub open spec fn max_int(a: int, b: int) -> int {
    if a >= b {
        a
    } else {
        b
    }
}

/// One step of the first pass at position `st.i`.
pub open spec fn scan_step(s: Seq<u8>, st: ScanState) -> ScanState {
    let c = s[st.i];
    if c == 35 {
        let (j, d) = color_intro(s, st.i);
        ScanState {
            i: j,
            defs: match d {
                Some(x) => st.defs.push(x),
                None => st.defs,
            },
            ..st
        }
    } else if c == 36 {
        ScanState { i: st.i + 1, x: 0, max_x: max_int(st.max_x, st.x), ..st }
    } else if c == 45 {
        ScanState { i: st.i + 1, x: 0, y: st.y + 6, max_x: max_int(st.max_x, st.x), ..st }
    } else if c == 33 {
        let j = st.i + 1;
        let k = j + digit_run(s, j);
        if k < s.len() && is_sixel_byte(s[k]) {
            ScanState { i: k + 1, x: st.x + number_at(s, j), ..st }
        } else {
            ScanState { i: k, ..st }
        }
    } else if is_sixel_byte(c) {
        ScanState { i: st.i + 1, x: st.x + 1, ..st }
    } else {
        ScanState { i: st.i + 1, ..st }
    }
}

/// Whether the step at `st.i` keeps every number within `u32`.
pub open spec fn scan_step_ok(s: Seq<u8>, st: ScanState) -> bool {
    let c = s[st.i];
    if c == 35 {
        color_intro_ok(s, st.i)
    } else if c == 45 {
        st.y + 6 <= u32::MAX
    } else if c == 33 {
        let j = st.i + 1;
        let k = j + digit_run(s, j);
        num_ok(s, j) && (k < s.len() && is_sixel_byte(s[k]) ==> st.x + number_at(s, j) <= u32::MAX)
    } else if is_sixel_byte(c) {
        st.x + 1 <= u32::MAX
    } else {
        true
    }
}

proof fn lemma_scan_progress(s: Seq<u8>, st: ScanState)
    requires
        0 <= st.i < s.len(),
    ensures
        st.i < scan_step(s, st).i <= s.len(),
{
    let i = st.i;
    lemma_digit_run_bound(s, i + 1);
    let j1 = i + 1 + digit_run(s, i + 1);
    if j1 < s.len() {
        lemma_digit_run_bound(s, j1 + 1);
        let j3 = j1 + 1 + digit_run(s, j1 + 1);
        if j3 < s.len() {
            lemma_digit_run_bound(s, j3 + 1);
            let j5 = j3 + 1 + digit_run(s, j3 + 1);
            if j5 < s.len() {
                lemma_digit_run_bound(s, j5 + 1);
                let j7 = j5 + 1 + digit_run(s, j5 + 1);
                if j7 < s.len() {
                    lemma_digit_run_bound(s, j7 + 1);
                }
            }
        }
    }
}

/// The state at the end of the first pass, from `st`.
pub open spec fn scan_from(s: Seq<u8>, st: ScanState) -> ScanState
    decreases s.len() - st.i,
{
    if st.i < 0 || st.i >= s.len() || scan_step(s, st).i <= st.i || scan_step(s, st).i > s.len() {
        st
    } else {
        scan_from(s, scan_step(s, st))
    }
}

/// Whether the first pass from `st` keeps every number within `u32`.
pub open spec fn scan_ok(s: Seq<u8>, st: ScanState) -> bool
    decreases s.len() - st.i,
{
    if st.i < 0 || st.i >= s.len() || scan_step(s, st).i <= st.i || scan_step(s, st).i > s.len() {
        st.y + 6 <= u32::MAX
    } else {
        scan_step_ok(s, st) && scan_ok(s, scan_step(s, st))
    }
}

/// The start of the first pass.
pub open spec fn scan_start() -> ScanState {
    ScanState { i: 0, x: 0, y: 0, max_x: 0, defs: Seq::empty() }
}

/// The width, height and colour definitions that the first pass finds.
pub open spec fn sixel_scan(s: Seq<u8>) -> (int, int, Seq<SixelColor>) {
    let st = scan_from(s, scan_start());
    (max_int(st.max_x, st.x), st.y + 6, st.defs)
}

/// The first pass over Sixel data: the image's width and height, and the
/// colours defined, in order.
pub fn scan_sixel(data: &[u8]) -> (r: (u32, u32, Vec<SixelColor>))
    requires
        scan_ok(data@, scan_start()),
    ensures
        r.0 == sixel_scan(data@).0,
        r.1 == sixel_scan(data@).1,
        r.2@ == sixel_scan(data@).2,
{
    let ghost s = data@;
    let mut i: usize = 0;
    let mut x: u32 = 0;
    let mut y: u32 = 0;
    let mut max_x: u32 = 0;
    let mut defs: Vec<SixelColor> = Vec::new();
    while i < data.len()
        invariant
            s == data@,
            i <= data@.len(),
            scan_from(s, ScanState { i: i as int, x: x as int, y: y as int, max_x: max_x as int, defs: defs@ })
                == scan_from(s, scan_start()),
            scan_ok(s, ScanState { i: i as int, x: x as int, y: y as int, max_x: max_x as int, defs: defs@ }),
        decreases data@.len() - i,
    {
        let ghost st = ScanState { i: i as int, x: x as int, y: y as int, max_x: max_x as int, defs: defs@ };
        proof {
            lemma_scan_progress(s, st);
            assert(scan_step_ok(s, st));
        }
        let c = data[i];
        if c == 35 {
            i = i + 1;
            proof {
                lemma_digit_run_bound(s, i as int);
            }
            let (idx, n) = parse_number(data, i);
            i = i + n;
            if i < data.len() && data[i] == 59 {
                i = i + 1;
                proof {
                    lemma_digit_run_bound(s, i as int);
                }
                let (ct, n) = parse_number(data, i);
                i = i + n;
                if i < data.len() && data[i] == 59 {
                    i = i + 1;
                    proof {
                        lemma_digit_run_bound(s, i as int);
                    }
                    let (p1, n) = parse_number(data, i);
                    i = i + n;
                    if i < data.len() && data[i] == 59 {
                        i = i + 1;
                        proof {
                            lemma_digit_run_bound(s, i as int);
                        }
                        let (p2, n) = parse_number(data, i);
                        i = i + n;
                        if i < data.len() && data[i] == 59 {
                            i = i + 1;
                            proof {
                                lemma_digit_run_bound(s, i as int);
                            }
                            let (p3, n) = parse_number(data, i);
                            i = i + n;
                            defs.push(SixelColor { index: idx, space: ct, a: p1, b: p2, c: p3 });
                        }
                    }
                }
            }
        } else if c == 36 {
            if x > max_x {
                max_x = x;
            }
            x = 0;
            i = i + 1;
        } else if c == 45 {
            if x > max_x {
                max_x = x;
            }
            x = 0;
            y = y + 6;
            i = i + 1;
        } else if c == 33 {
            i = i + 1;
            proof {
                lemma_digit_run_bound(s, i as int);
            }
            let (count, n) = parse_number(data, i);
            i = i + n;
            if i < data.len() && data[i] >= 63 && data[i] <= 126 {
                x = x + count;
                i = i + 1;
            }
        } else if c >= 63 && c <= 126 {
            x = x + 1;
            i = i + 1;
        } else {
            i = i + 1;
        }
        proof {
            let nst = ScanState { i: i as int, x: x as int, y: y as int, max_x: max_x as int, defs: defs@ };
            assert(nst == scan_step(s, st));
        }
    }
    let ghost fin = ScanState { i: i as int, x: x as int, y: y as int, max_x: max_x as int, defs: defs@ };
    let width = if x > max_x {
        x
    } else {
        max_x
    };
    (width, y + 6, defs)
}

/// The colour that palette index `c` draws with (white where none is set).
pub open spec fn palette_color(palette: Seq<Option<(u8, u8, u8)>>, c: u8) -> (u8, u8, u8) {
    match palette[c as int] {
        Some(rgb) => rgb,
        None => (255, 255, 255),
    }
}

/// The pixels after painting the pixel (`x`, `y`) of a `w` by `h` image,
/// when it lies inside the image.
pub open spec fn put_pixel(px: Seq<u8>, x: int, y: int, rgb: (u8, u8, u8), w: int, h: int) -> Seq<u8> {
    if x < w && y < h {
        let idx = (y * w + x) * 4;
        if idx + 3 < px.len() {
            px.update(idx, rgb.0).update(idx + 1, rgb.1).update(idx + 2, rgb.2).update(idx + 3, 255)
        } else {
            px
        }
    } else {
        px
    }
}

/// Whether bit `b` of the sixel `bits` is set.
pub open spec fn bit_set(bits: u8, b: int) -> bool {
    bits & (1u8 << (b as u8)) != 0
}

/// The pixels after drawing bits `b` to 5 of a sixel at column `x` of the
/// band starting at row `y`.
pub open spec fn draw_bits(px: Seq<u8>, x: int, y: int, bits: u8, rgb: (u8, u8, u8), w: int, h: int, b: int) -> Seq<u8>
    decreases 6 - b,
{
    if b >= 6 {
        px
    } else {
        let next = if bit_set(bits, b) {
            put_pixel(px, x, y + b, rgb, w, h)
        } else {
            px
        };
        draw_bits(next, x, y, bits, rgb, w, h, b + 1)
    }
}

/// The pixels after drawing the sixel `count` times from column `x` on.
pub open spec fn draw_run(px: Seq<u8>, x: int, y: int, bits: u8, rgb: (u8, u8, u8), w: int, h: int, count: nat) -> Seq<u8>
    decreases count,
{
    if count == 0 {
        px
    } else {
        draw_run(draw_bits(px, x, y, bits, rgb, w, h, 0), x + 1, y, bits, rgb, w, h, (count - 1) as nat)
    }
}

/// Whether every row a sixel with `bits` draws from row `y` fits in a `u32`.
pub open spec fn draw_ok(y: int, bits: u8) -> bool {
    forall|b: int| 0 <= b < 6 && bit_set(bits, b) ==> y + b <= u32::MAX
}

/// Where the parameters `;n;n...` starting at `j` end.
pub open spec fn skip_params(s: Seq<u8>, j: int) -> int
    decreases s.len() - j,
{
    if 0 <= j < s.len() && s[j] == 59 && j + 1 + digit_run(s, j + 1) <= s.len() {
        skip_params(s, j + 1 + digit_run(s, j + 1))
    } else {
        j
    }
}

/// Whether every parameter from `j` on fits in a `u32`.
pub open spec fn params_ok(s: Seq<u8>, j: int) -> bool
    decreases s.len() - j,
{
    if 0 <= j < s.len() && s[j] == 59 && j + 1 + digit_run(s, j + 1) <= s.len() {
        num_ok(s, j + 1) && params_ok(s, j + 1 + digit_run(s, j + 1))
    } else {
        true
    }
}

/// Where the drawing pass is: position, column, band row and colour.
pub struct DrawPos {
    pub i: int,
    pub x: int,
    pub y: int,
    pub color: u8,
}

/// Where the drawing pass goes from `p`.
pub open spec fn pos_step(s: Seq<u8>, p: DrawPos) -> DrawPos {
    let c = s[p.i];
    if c == 35 {
        let j0 = p.i + 1;
        let j1 = j0 + digit_run(s, j0);
        DrawPos { i: skip_params(s, j1), color: number_at(s, j0) as u8, ..p }
    } else if c == 36 {
        DrawPos { i: p.i + 1, x: 0, ..p }
    } else if c == 45 {
        DrawPos { i: p.i + 1, x: 0, y: p.y + 6, ..p }
    } else if c == 33 {
        let j = p.i + 1;
        let k = j + digit_run(s, j);
        if k < s.len() && is_sixel_byte(s[k]) {
            DrawPos { i: k + 1, x: p.x + number_at(s, j), ..p }
        } else {
            DrawPos { i: k, ..p }
        }
    } else if is_sixel_byte(c) {
        DrawPos { i: p.i + 1, x: p.x + 1, ..p }
    } else {
        DrawPos { i: p.i + 1, ..p }
    }
}

/// The pixels after the drawing step at `p`.
pub open spec fn pixel_step(
    s: Seq<u8>,
    p: DrawPos,
    px: Seq<u8>,
    w: int,
    h: int,
    palette: Seq<Option<(u8, u8, u8)>>,
) -> Seq<u8> {
    let c = s[p.i];
    if c == 33 {
        let j = p.i + 1;
        let count = number_at(s, j);
        let k = j + digit_run(s, j);
        if k < s.len() && is_sixel_byte(s[k]) {
            draw_run(px, p.x, p.y, (s[k] - 63) as u8, palette_color(palette, p.color), w, h, count)
        } else {
            px
        }
    } else if is_sixel_byte(c) && c != 35 && c != 36 && c != 45 {
        draw_bits(px, p.x, p.y, (c - 63) as u8, palette_color(palette, p.color), w, h, 0)
    } else {
        px
    }
}

/// Whether the drawing step at `p` keeps every number within `u32`.
pub open spec fn draw_step_ok(s: Seq<u8>, p: DrawPos) -> bool {
    let c = s[p.i];
    if c == 35 {
        let j0 = p.i + 1;
        num_ok(s, j0) && params_ok(s, j0 + digit_run(s, j0))
    } else if c == 45 {
        p.y + 6 <= u32::MAX
    } else if c == 33 {
        let j = p.i + 1;
        let count = number_at(s, j);
        let k = j + digit_run(s, j);
        num_ok(s, j) && (k < s.len() && is_sixel_byte(s[k]) ==> p.x + count <= u32::MAX && (count > 0
            ==> draw_ok(p.y, (s[k] - 63) as u8)))
    } else if is_sixel_byte(c) {
        p.x + 1 <= u32::MAX && draw_ok(p.y, (c - 63) as u8)
    } else {
        true
    }
}

proof fn lemma_skip_params(s: Seq<u8>, j: int)
    requires
        0 <= j <= s.len(),
    ensures
        j <= skip_params(s, j) <= s.len(),
    decreases s.len() - j,
{
    if j < s.len() && s[j] == 59 {
        lemma_digit_run_bound(s, j + 1);
        lemma_skip_params(s, j + 1 + digit_run(s, j + 1));
    }
}

proof fn lemma_draw_progress(s: Seq<u8>, p: DrawPos)
    requires
        0 <= p.i < s.len(),
    ensures
        p.i < pos_step(s, p).i <= s.len(),
{
    lemma_digit_run_bound(s, p.i + 1);
    lemma_skip_params(s, p.i + 1 + digit_run(s, p.i + 1));
}

/// The pixels at the end of the drawing pass, from `p` with pixels `px`.
pub open spec fn draw_from(
    s: Seq<u8>,
    p: DrawPos,
    px: Seq<u8>,
    w: int,
    h: int,
    palette: Seq<Option<(u8, u8, u8)>>,
) -> Seq<u8>
    decreases s.len() - p.i,
{
    let next = pos_step(s, p);
    if p.i < 0 || p.i >= s.len() || next.i <= p.i || next.i > s.len() {
        px
    } else {
        draw_from(s, next, pixel_step(s, p, px, w, h, palette), w, h, palette)
    }
}

/// Whether the drawing pass from `p` keeps every number within `u32`.
pub open spec fn draw_ok_from(s: Seq<u8>, p: DrawPos) -> bool
    decreases s.len() - p.i,
{
    let next = pos_step(s, p);
    if p.i < 0 || p.i >= s.len() || next.i <= p.i || next.i > s.len() {
        true
    } else {
        draw_step_ok(s, p) && draw_ok_from(s, next)
    }
}

/// Where the drawing pass starts.
pub open spec fn draw_start() -> DrawPos {
    DrawPos { i: 0, x: 0, y: 0, color: 0 }
}

/// The RGBA pixels that the drawing pass paints for a `w` by `h` image.
pub open spec fn sixel_pixels(s: Seq<u8>, w: int, h: int, palette: Seq<Option<(u8, u8, u8)>>) -> Seq<u8> {
    draw_from(s, draw_start(), Seq::new((w * h * 4) as nat, |k: int| 0u8), w, h, palette)
}

/// Paints the pixel (`x`, `y`) of a `w` by `h` image, when it lies inside.
fn put_pixel_exec(pixels: &mut Vec<u8>, x: u32, y: u32, rgb: (u8, u8, u8), w: u32, h: u32)
    requires
        old(pixels)@.len() == w * h * 4,
        w * h * 4 <= u32::MAX,
    ensures
        final(pixels)@ == put_pixel(old(pixels)@, x as int, y as int, rgb, w as int, h as int),
{
    if x < w && y < h {
        assert(y * w + x < w * h) by (nonlinear_arith)
            requires
                x < w,
                y < h,
        ;
        let idx = ((y * w + x) * 4) as usize;
        if idx + 3 < pixels.len() {
            pixels.set(idx, rgb.0);
            pixels.set(idx + 1, rgb.1);
            pixels.set(idx + 2, rgb.2);
            pixels.set(idx + 3, 255);
        }
    }
}

/// Draws one sixel at column `x` of the band starting at row `y`.
fn draw_sixel(pixels: &mut Vec<u8>, x: u32, y: u32, bits: u8, rgb: (u8, u8, u8), w: u32, h: u32)
    requires
        old(pixels)@.len() == w * h * 4,
        w * h * 4 <= u32::MAX,
        draw_ok(y as int, bits),
    ensures
        final(pixels)@ == draw_bits(old(pixels)@, x as int, y as int, bits, rgb, w as int, h as int, 0),
        final(pixels)@.len() == old(pixels)@.len(),
{
    let mut bit: u8 = 0;
    while bit < 6
        invariant
            bit <= 6,
            pixels@.len() == w * h * 4,
            w * h * 4 <= u32::MAX,
            draw_ok(y as int, bits),
            draw_bits(old(pixels)@, x as int, y as int, bits, rgb, w as int, h as int, 0) == draw_bits(
                pixels@,
                x as int,
                y as int,
                bits,
                rgb,
                w as int,
                h as int,
                bit as int,
            ),
        decreases 6 - bit,
    {
        if bits & (1u8 << bit) != 0 {
            assert(bit_set(bits, bit as int));
            let py = y + bit as u32;
            put_pixel_exec(pixels, x, py, rgb, w, h);
        }
        bit = bit + 1;
    }
}

/// The colour that palette index `c` draws with.
fn palette_color_exec(palette: &Vec<Option<(u8, u8, u8)>>, c: u8) -> (rgb: (u8, u8, u8))
    requires
        palette@.len() == 256,
    ensures
        rgb == palette_color(palette@, c),
{
    match palette[c as usize] {
        Some(rgb) => rgb,
        None => (255, 255, 255),
    }
}

/// The drawing pass over Sixel data: the RGBA pixels of a `w` by `h` image.
pub fn render_sixel(data: &[u8], w: u32, h: u32, palette: &Vec<Option<(u8, u8, u8)>>) -> (px: Vec<u8>)
    requires
        w * h * 4 <= u32::MAX,
        palette@.len() == 256,
        draw_ok_from(data@, draw_start()),
    ensures
        px@ == sixel_pixels(data@, w as int, h as int, palette@),
{
    let ghost s = data@;
    let ghost wi = w as int;
    let ghost hi = h as int;
    assert(w * h * 4 == (w * h * 4) as u32);
    let n = (w * h * 4) as usize;
    let mut pixels: Vec<u8> = vec![0u8; n];
    assert(pixels@ =~= Seq::new((wi * hi * 4) as nat, |k: int| 0u8));
    let mut i: usize = 0;
    let mut x: u32 = 0;
    let mut y: u32 = 0;
    let mut color: u8 = 0;
    while i < data.len()
        invariant
            s == data@,
            i <= data@.len(),
            wi == w,
            hi == h,
            w * h * 4 <= u32::MAX,
            palette@.len() == 256,
            pixels@.len() == w * h * 4,
            draw_from(s, DrawPos { i: i as int, x: x as int, y: y as int, color }, pixels@, wi, hi, palette@)
                == sixel_pixels(s, wi, hi, palette@),
            draw_ok_from(s, DrawPos { i: i as int, x: x as int, y: y as int, color }),
        decreases data@.len() - i,
    {
        let ghost p = DrawPos { i: i as int, x: x as int, y: y as int, color };
        let ghost px0 = pixels@;
        proof {
            lemma_draw_progress(s, p);
            assert(draw_step_ok(s, p));
        }
        let c = data[i];
        if c == 35 {
            i = i + 1;
            proof {
                lemma_digit_run_bound(s, i as int);
            }
            let (idx, n) = parse_number(data, i);
            i = i + n;
            color = idx as u8;
            let ghost j1 = i as int;
            while i < data.len() && data[i] == 59
                invariant
                    s == data@,
                    j1 <= i <= data@.len(),
                    skip_params(s, i as int) == skip_params(s, j1),
                    params_ok(s, i as int),
                decreases data@.len() - i,
            {
                i = i + 1;
                proof {
                    lemma_digit_run_bound(s, i as int);
                }
                let (_v, n) = parse_number(data, i);
                i = i + n;
            }
        } else if c == 36 {
            x = 0;
            i = i + 1;
        } else if c == 45 {
            x = 0;
            y = y + 6;
            i = i + 1;
        } else if c == 33 {
            i = i + 1;
            proof {
                lemma_digit_run_bound(s, i as int);
            }
            let (count, n) = parse_number(data, i);
            i = i + n;
            if i < data.len() && data[i] >= 63 && data[i] <= 126 {
                let bits = data[i] - 63;
                let rgb = palette_color_exec(palette, color);
                let ghost x0 = x as int;
                let mut k: u32 = 0;
                while k < count
                    invariant
                        k <= count,
                        x == x0 + k,
                        x0 + count <= u32::MAX,
                        count > 0 ==> draw_ok(y as int, bits),
                        pixels@.len() == w * h * 4,
                        w * h * 4 <= u32::MAX,
                        wi == w,
                        hi == h,
                        draw_run(px0, x0, y as int, bits, rgb, wi, hi, count as nat) == draw_run(
                            pixels@,
                            x as int,
                            y as int,
                            bits,
                            rgb,
                            wi,
                            hi,
                            (count - k) as nat,
                        ),
                    decreases count - k,
                {
                    draw_sixel(&mut pixels, x, y, bits, rgb, w, h);
                    x = x + 1;
                    k = k + 1;
                }
                i = i + 1;
            }
        } else if c >= 63 && c <= 126 {
            let rgb = palette_color_exec(palette, color);
            draw_sixel(&mut pixels, x, y, c - 63, rgb, w, h);
            x = x + 1;
            i = i + 1;
        } else {
            i = i + 1;
        }
        proof {
            let np = DrawPos { i: i as int, x: x as int, y: y as int, color };
            assert(np == pos_step(s, p));
            assert(pixels@ == pixel_step(s, p, px0, wi, hi, palette@));
        }
    }
    pixels
}

/// A decoded Sixel image.
#[derive(Debug, Clone)]
pub struct SixelImage {
    /// Width in pixels
    pub width: u32,
    /// Height in pixels
    pub height: u32,
    /// RGBA pixel data
    pub data: Vec<u8>,
}

/// The position of the first byte `b` in `s`.
pub open spec fn byte_index(s: Seq<u8>, b: u8) -> Option<nat>
    decreases s.len(),
{
    if s.len() == 0 {
        None
    } else if s[0] == b {
        Some(0)
    } else {
        match byte_index(s.drop_first(), b) {
            Some(i) => Some(i + 1),
            None => None,
        }
    }
}

proof fn lemma_byte_index(s: Seq<u8>, b: u8, k: int)
    requires
        0 <= k <= s.len(),
        forall|i: int| 0 <= i < k ==> s[i] != b,
        k < s.len() ==> s[k] == b,
    ensures
        byte_index(s, b) == if k < s.len() {
            Some(k as nat)
        } else {
            None::<nat>
        },
    decreases s.len(),
{
    if s.len() > 0 && k > 0 {
        assert forall|i: int| 0 <= i < k - 1 implies s.drop_first()[i] != b by {
            assert(s.drop_first()[i] == s[i + 1]);
        }
        lemma_byte_index(s.drop_first(), b, k - 1);
    }
}

/// A component given in percent, on the 0..255 scale.
pub open spec fn percent_255(v: u32) -> u8 {
    #[verifier::truncate] (((v * 255) / 100) as u8)
}

/// The colour a definition sets: RGB in percent for space 2, else the HLS
/// colour `hls` converted elsewhere.
pub open spec fn def_color(d: SixelColor, hls: (u8, u8, u8)) -> (u8, u8, u8) {
    if d.space == 2 {
        (percent_255(d.a), percent_255(d.b), percent_255(d.c))
    } else {
        hls
    }
}

/// The palette after the definitions `defs`, in order (`cs` holding the
/// converted HLS colours).
pub open spec fn apply_defs(
    palette: Seq<Option<(u8, u8, u8)>>,
    defs: Seq<SixelColor>,
    cs: Seq<(u8, u8, u8)>,
) -> Seq<Option<(u8, u8, u8)>>
    decreases defs.len(),
{
    if defs.len() == 0 {
        palette
    } else {
        apply_defs(palette, defs.drop_last(), cs.drop_last()).update(
            (defs.last().index as u8) as int,
            Some(def_color(defs.last(), cs.last())),
        )
    }
}

/// Whether every RGB definition of `defs` scales without overflow.
pub open spec fn defs_ok(defs: Seq<SixelColor>) -> bool {
    forall|k: int|
        0 <= k < defs.len() && (#[trigger] defs[k]).space == 2 ==> defs[k].a * 255 <= u32::MAX && defs[k].b * 255
            <= u32::MAX && defs[k].c * 255 <= u32::MAX
}

/// Whether reading the Sixel data `t` keeps every number within `u32`.
pub open spec fn sixel_ok(t: Seq<u8>) -> bool {
    let (w, h, defs) = sixel_scan(t);
    &&& scan_ok(t, scan_start())
    &&& defs_ok(defs)
    &&& w * h * 4 <= u32::MAX
    &&& draw_ok_from(t, draw_start())
}

/// The palette of a new parser: the VGA colours at 0 to 15.
pub open spec fn vga_palette() -> Seq<Option<(u8, u8, u8)>> {
    Seq::new(
        256,
        |i: int|
            if i < 16 {
                Some(vga_color(i as u8))
            } else {
                None
            },
    )
}

/// Reader of Sixel images, with its palette.
#[derive(Debug)]
pub struct SixelParser {
    data: Vec<u8>,
    palette: Vec<Option<(u8, u8, u8)>>,
    current_color: u8,
    width: u32,
    height: u32,
    x: u32,
    y: u32,
}

impl Default for SixelParser {
    fn default() -> (p: Self)
        ensures
            p.well_formed(),
            p.palette() == Seq::new(256, |i: int| None::<(u8, u8, u8)>),
    {
        let mut palette: Vec<Option<(u8, u8, u8)>> = Vec::new();
        let mut i: usize = 0;
        while i < 256
            invariant
                i <= 256,
                palette@ == Seq::new(i as nat, |k: int| None::<(u8, u8, u8)>),
            decreases 256 - i,
        {
            palette.push(None);
            assert(palette@ =~= Seq::new((i + 1) as nat, |k: int| None::<(u8, u8, u8)>));
            i = i + 1;
        }
        SixelParser { data: Vec::new(), palette, current_color: 0, width: 0, height: 0, x: 0, y: 0 }
    }
}

/// The bytes of `data` after position `k`.
fn bytes_after(data: &[u8], k: usize) -> (r: Vec<u8>)
    requires
        k < data@.len(),
    ensures
        r@ == data@.skip(k + 1),
{
    let mut r: Vec<u8> = Vec::new();
    let n = data.len();
    assert(k < n);
    let mut i: usize = k + 1;
    while i < data.len()
        invariant
            k + 1 <= i <= data@.len(),
            r@ == data@.subrange(k + 1, i as int),
        decreases data@.len() - i,
    {
        r.push(data[i]);
        assert(data@.subrange(k + 1, i + 1) =~= data@.subrange(k + 1, i as int).push(data@[i as int]));
        i = i + 1;
    }
    assert(data@.subrange(k + 1, data@.len() as int) =~= data@.skip(k + 1));
    r
}

impl SixelParser {
    /// The palette, by colour index.
    pub closed spec fn palette(self) -> Seq<Option<(u8, u8, u8)>> {
        self.palette@
    }

    /// The palette has a slot for every `u8` index.
    pub closed spec fn well_formed(self) -> bool {
        self.palette@.len() == 256
    }

    /// A parser whose palette holds the VGA colours at 0 to 15.
    pub fn new() -> (p: Self)
        ensures
            p.well_formed(),
            p.palette() == vga_palette(),
    {
        let mut palette: Vec<Option<(u8, u8, u8)>> = Vec::new();
        let mut i: usize = 0;
        while i < 256
            invariant
                i <= 256,
                palette@ == vga_palette().take(i as int),
            decreases 256 - i,
        {
            let entry = if i < 16 {
                Some(default_vga_color(i as u8))
            } else {
                None
            };
            palette.push(entry);
            assert(palette@ =~= vga_palette().take(i + 1));
            i = i + 1;
        }
        assert(vga_palette().take(256) =~= vga_palette());
        SixelParser { data: Vec::new(), palette, current_color: 0, width: 0, height: 0, x: 0, y: 0 }
    }

    /// Reads a Sixel sequence (`<params> q <sixel data>`): the first pass
    /// finds the size and sets the colours it defines (HLS colours through
    /// `hls`), the second paints the pixels. None without a `q`.
    pub fn parse<F: Fn(u32, u32, u32) -> (u8, u8, u8)>(&mut self, data: &[u8], hls: F) -> (r: Option<SixelImage>)
        requires
            old(self).well_formed(),
            forall|a: u32, b: u32, c: u32| call_requires(hls, (a, b, c)),
            match byte_index(data@, 113) {
                Some(k) => sixel_ok(data@.skip((k + 1) as int)),
                None => true,
            },
        ensures
            final(self).well_formed(),
            match byte_index(data@, 113) {
                None => r is None && final(self).palette() == old(self).palette(),
                Some(k) => {
                    let t = data@.skip((k + 1) as int);
                    let (w, h, defs) = sixel_scan(t);
                    &&& r is Some
                    &&& r->0.width == w
                    &&& r->0.height == h
                    &&& exists|cs: Seq<(u8, u8, u8)>|
                        #![trigger apply_defs(old(self).palette(), defs, cs)]
                        cs.len() == defs.len() && (forall|j: int|
                            0 <= j < defs.len() && (#[trigger] defs[j]).space != 2 ==> call_ensures(
                                hls,
                                (defs[j].a, defs[j].b, defs[j].c),
                                cs[j],
                            )) && final(self).palette() == apply_defs(old(self).palette(), defs, cs)
                            && r->0.data@ == sixel_pixels(t, w, h, final(self).palette())
                },
            },
    {
        self.data = Vec::new();
        self.x = 0;
        self.y = 0;
        self.width = 0;
        self.height = 0;
        let mut q: usize = 0;
        while q < data.len() && data[q] != 113
            invariant
                q <= data@.len(),
                forall|i: int| 0 <= i < q ==> data@[i] != 113,
            decreases data@.len() - q,
        {
            q = q + 1;
        }
        proof {
            lemma_byte_index(data@, 113, q as int);
        }
        if q == data.len() {
            return None;
        }
        let sixel = bytes_after(data, q);
        let (w, h, defs) = scan_sixel(sixel.as_slice());
        let ghost pal0 = self.palette@;
        let ghost mut cs: Seq<(u8, u8, u8)> = Seq::empty();
        let mut k: usize = 0;
        while k < defs.len()
            invariant
                k <= defs@.len(),
                defs@ == sixel_scan(sixel@).2,
                defs_ok(defs@),
                self.palette@.len() == 256,
                cs.len() == k,
                forall|j: int|
                    0 <= j < k && (#[trigger] defs@[j]).space != 2 ==> call_ensures(
                        hls,
                        (defs@[j].a, defs@[j].b, defs@[j].c),
                        cs[j],
                    ),
                forall|a: u32, b: u32, c: u32| call_requires(hls, (a, b, c)),
                self.palette@ == apply_defs(pal0, defs@.take(k as int), cs),
            decreases defs@.len() - k,
        {
            let d = defs[k];
            let rgb = if d.space == 2 {
                (
                    #[verifier::truncate] (((d.a * 255) / 100) as u8),
                    #[verifier::truncate] (((d.b * 255) / 100) as u8),
                    #[verifier::truncate] (((d.c * 255) / 100) as u8),
                )
            } else {
                hls(d.a, d.b, d.c)
            };
            proof {
                let old_cs = cs;
                cs = cs.push(rgb);
                assert(defs@.take(k + 1).drop_last() =~= defs@.take(k as int));
                assert(cs.drop_last() =~= old_cs);
                assert(defs@.take(k + 1).last() == d);
            }
            let slot = (d.index as u8) as usize;
            self.palette.set(slot, Some(rgb));
            proof {
                let prev = cs.drop_last();
                assert(apply_defs(pal0, defs@.take(k + 1), cs) == apply_defs(pal0, defs@.take(k as int), prev).update(
                    (d.index as u8) as int,
                    Some(def_color(d, rgb)),
                ));
            }
            k = k + 1;
        }
        assert(defs@.take(defs@.len() as int) =~= defs@);
        assert(self.palette@ == apply_defs(old(self).palette(), defs@, cs));
        self.width = w;
        self.height = h;
        let pixels = render_sixel(sixel.as_slice(), w, h, &self.palette);
        Some(SixelImage { width: w, height: h, data: pixels })
    }
}

} // verus!
