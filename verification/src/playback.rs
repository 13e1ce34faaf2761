//! What the player reports: its phase, its clock and the item it plays.

use vstd::prelude::*;

verus! {

#[derive(Clone, Copy, Debug, PartialEq, Eq, Structural)]
pub enum PlaybackPhase {
    Starting,
    Playing,
    Paused,
    Stopped,
}

#[derive(Clone, Copy, Debug, PartialEq, Eq, Structural)]
pub enum ItemKind {
    Unknown,
    Movie,
    Episode,
    Video,
    Music,
    MusicVideo,
}

#[derive(Clone, Copy, Debug, PartialEq, Eq, Structural)]
pub enum MediaType {
    Unknown,
    Audio,
    Video,
}

/// A playback rate, held as the bits of an IEEE 754 double.
#[derive(Clone, Copy, Debug)]
pub struct Rate {
    pub bits: u64,
}

/// Two rates compare as numbers do: zero has two signs but is one number, and
/// a NaN equals nothing, not even itself.
impl PartialEq for Rate {
    fn eq(&self, other: &Self) -> (r: bool) {
        let a: u64 = self.size();
        let b: u64 = other.size();
        a <= 0x7FF0_0000_0000_0000 && b <= 0x7FF0_0000_0000_0000 && (self.bits == other.bits || a
            == 0 && b == 0)
    }
}

impl vstd::std_specs::cmp::PartialEqSpecImpl for Rate {
    open spec fn obeys_eq_spec() -> bool {
        true
    }

    open spec fn eq_spec(&self, other: &Self) -> bool {
        self.equals(*other)
    }
}

impl Rate {
    /// The bits without the sign.
    pub open spec fn magnitude(self) -> int {
        if self.bits >= 0x8000_0000_0000_0000 {
            self.bits - 0x8000_0000_0000_0000
        } else {
            self.bits as int
        }
    }

    pub open spec fn is_nan(self) -> bool {
        self.magnitude() > 0x7FF0_0000_0000_0000
    }

    /// The two are one number.
    pub open spec fn equals(self, other: Rate) -> bool {
        &&& !self.is_nan()
        &&& !other.is_nan()
        &&& self.bits == other.bits || self.magnitude() == 0 && other.magnitude() == 0
    }

    fn size(self) -> (r: u64)
        ensures
            r == self.magnitude(),
    {
        if self.bits >= 0x8000_0000_0000_0000 {
            self.bits - 0x8000_0000_0000_0000
        } else {
            self.bits
        }
    }

    /// The rate compares greater than zero: its sign bit is clear, it is not
    /// zero and it is not a NaN.
    pub open spec fn positive(self) -> bool {
        0 < self.bits <= 0x7FF0_0000_0000_0000
    }

    pub fn from_bits(bits: u64) -> (r: Rate)
        ensures
            r.bits == bits,
    {
        Rate { bits }
    }

    pub fn is_positive(self) -> (r: bool)
        ensures
            r == self.positive(),
    {
        0 < self.bits && self.bits <= 0x7FF0_0000_0000_0000
    }
}

#[derive(Debug)]
pub struct MediaMetadata {
    pub id: String,
    pub title: String,
    pub artist: String,
    pub album: String,
    pub track_number: i32,
    pub season_number: i32,
    pub year: i32,
    pub duration_us: i64,
    pub art_url: String,
    pub art_data_uri: String,
    pub media_type: MediaType,
    pub kind: ItemKind,
    pub imdb_id: String,
    pub tmdb_id: String,
    pub anilist_id: String,
}

impl Clone for MediaMetadata {
    fn clone(&self) -> (r: Self)
        ensures
            r == *self,
    {
        MediaMetadata {
            id: self.id.clone(),
            title: self.title.clone(),
            artist: self.artist.clone(),
            album: self.album.clone(),
            track_number: self.track_number,
            season_number: self.season_number,
            year: self.year,
            duration_us: self.duration_us,
            art_url: self.art_url.clone(),
            art_data_uri: self.art_data_uri.clone(),
            media_type: self.media_type,
            kind: self.kind,
            imdb_id: self.imdb_id.clone(),
            tmdb_id: self.tmdb_id.clone(),
            anilist_id: self.anilist_id.clone(),
        }
    }
}

/// `m` describes no item: every text is empty and every number zero.
pub open spec fn blank_metadata(m: MediaMetadata) -> bool {
    &&& m.id@.len() == 0
    &&& m.title@.len() == 0
    &&& m.artist@.len() == 0
    &&& m.album@.len() == 0
    &&& m.track_number == 0
    &&& m.season_number == 0
    &&& m.year == 0
    &&& m.duration_us == 0
    &&& m.art_url@.len() == 0
    &&& m.art_data_uri@.len() == 0
    &&& m.media_type == MediaType::Unknown
    &&& m.kind == ItemKind::Unknown
    &&& m.imdb_id@.len() == 0
    &&& m.tmdb_id@.len() == 0
    &&& m.anilist_id@.len() == 0
}

impl Default for MediaMetadata {
    fn default() -> (r: Self)
        ensures
            blank_metadata(r),
    {
        MediaMetadata {
            id: String::new(),
            title: String::new(),
            artist: String::new(),
            album: String::new(),
            track_number: 0,
            season_number: 0,
            year: 0,
            duration_us: 0,
            art_url: String::new(),
            art_data_uri: String::new(),
            media_type: MediaType::Unknown,
            kind: ItemKind::Unknown,
            imdb_id: String::new(),
            tmdb_id: String::new(),
            anilist_id: String::new(),
        }
    }
}

#[derive(Clone, Copy, Debug, PartialEq)]
pub struct PlaybackSnapshot {
    pub phase: PlaybackPhase,
    pub seeking: bool,
    pub buffering: bool,
    pub rate: Rate,
    pub position_us: i64,
    pub duration_us: i64,
}

#[derive(Clone, Copy, Debug, PartialEq, Eq, Structural)]
pub enum PlaybackEventKind {
    Started,
    Paused,
    Finished,
    Canceled,
    Error,
    TrackLoaded,
    MetadataChanged,
    RateChanged,
    DurationChanged,
    Seeked,
    SeekingChanged,
    BufferingChanged,
    PositionChanged,
    BufferedRangesChanged,
    FullscreenChanged,
    OsdDimsChanged,
    Other,
}

#[derive(Debug)]
pub struct PlaybackEvent {
    pub kind: PlaybackEventKind,
    pub snapshot: PlaybackSnapshot,
    pub metadata: MediaMetadata,
}

/// A positive rate equals itself, and no other bits equal it.
pub proof fn positive_rates_compare_by_their_bits(a: Rate, b: Rate)
    requires
        a.positive(),
    ensures
        a.equals(b) <==> a == b,
        b.equals(a) <==> a == b,
{
}

/// Rates compare as the numbers they stand for: a NaN equals nothing, zero
/// equals itself with either sign, and any other rate equals itself alone.
pub proof fn rates_compare_as_numbers(a: Rate, b: Rate)
    ensures
        a.equals(b) <==> b.equals(a),
        a.is_nan() ==> !a.equals(b) && !a.positive(),
        !a.is_nan() ==> a.equals(a),
        a.bits == 0 && b.bits == 0x8000_0000_0000_0000 ==> a.equals(b),
        a.equals(b) && a.bits != b.bits ==> !a.positive() && !b.positive() && a.bits + b.bits
            == 0x8000_0000_0000_0000,
        // Infinity is a number; with a larger magnitude there is none.
        a.is_nan() <==> (0x7FF0_0000_0000_0000 < a.bits < 0x8000_0000_0000_0000 || 0xFFF0_0000_0000_0000
            < a.bits),
        a.positive() <==> 0 < a.bits < 0x8000_0000_0000_0000 && !a.is_nan(),
{
}

/// Metadata that describes no item has no identifier, no title and no poster,
/// and is of no kind.
pub proof fn blank_metadata_describes_nothing(m: MediaMetadata)
    requires
        blank_metadata(m),
    ensures
        m.id@ == Seq::<char>::empty() && m.title@ == Seq::<char>::empty() && m.artist@ == Seq::<
            char,
        >::empty() && m.album@ == Seq::<char>::empty(),
        m.art_url@ == Seq::<char>::empty() && m.art_data_uri@ == Seq::<char>::empty(),
        m.imdb_id@ == Seq::<char>::empty() && m.tmdb_id@ == Seq::<char>::empty() && m.anilist_id@
            == Seq::<char>::empty(),
        m.track_number == 0 && m.season_number == 0 && m.year == 0 && m.duration_us == 0,
        m.kind is Unknown,
        m.media_type is Unknown,
{
}

} // verus!
