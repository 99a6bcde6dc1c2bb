//! Spotify's identifiers of tracks and episodes.
use vstd::prelude::*;

verus! {

/// What an identifier stands for.
#[derive(Clone, Copy, Debug, PartialEq, Eq, Structural)]
pub enum SpotifyAudioType {
    Track,
    Podcast,
    NonPlayable,
}

/// The identifier of a track or an episode.
#[derive(Clone, Copy, Debug, PartialEq, Eq, Structural)]
pub struct SpotifyId {
    pub id: u128,
    pub audio_type: SpotifyAudioType,
}

/// How many base 62 digits an identifier is written with.
pub const BASE62_LEN: usize = 22;

/// The character of a base 62 digit: `0` to `9`, then `a` to `z`, then `A` to `Z`.
pub open spec fn base62_digit(d: int) -> char
    recommends
        0 <= d < 62,
{
    if d < 10 {
        ('0' as int + d) as char
    } else if d < 36 {
        ('a' as int + (d - 10)) as char
    } else {
        ('A' as int + (d - 36)) as char
    }
}

/// `n` in base 62 with `len` digits, the most significant one first.
pub open spec fn base62(n: int, len: nat) -> Seq<char>
    decreases len,
{
    if len == 0 {
        Seq::empty()
    } else {
        base62(n / 62, (len - 1) as nat).push(base62_digit(n % 62))
    }
}

impl SpotifyId {
    /// The identifier's number in base 62.
    ///
    /// `librespot::core::spotify_id::SpotifyId::to_base62` is taken to write the
    /// number with 22 digits, padded with `0` on the left, and to leave the
    /// kind of the identifier out.
    #[verifier::external_body]
    pub(crate) fn to_base62(&self) -> (text: String)
        ensures
            text@ == base62(self.id as int, BASE62_LEN as nat),
    {
        let audio_type = match self.audio_type {
            SpotifyAudioType::Track => librespot::core::spotify_id::SpotifyAudioType::Track,
            SpotifyAudioType::Podcast => librespot::core::spotify_id::SpotifyAudioType::Podcast,
            SpotifyAudioType::NonPlayable => librespot::core::spotify_id::SpotifyAudioType::NonPlayable,
        };
        librespot::core::spotify_id::SpotifyId { id: self.id, audio_type }.to_base62()
    }
}

proof fn lemma_base62_injective(a: int, b: int, len: nat)
    requires
        0 <= a < vstd::arithmetic::power::pow(62, len),
        0 <= b < vstd::arithmetic::power::pow(62, len),
        base62(a, len) == base62(b, len),
    ensures
        a == b,
    decreases len,
{
    reveal(vstd::arithmetic::power::pow);
    if len > 0 {
        let shorter = (len - 1) as nat;
        let (x, y) = (base62(a / 62, shorter), base62(b / 62, shorter));
        let (c, d) = (base62_digit(a % 62), base62_digit(b % 62));
        assert(x.push(c).last() == c && y.push(d).last() == d);
        assert(a % 62 == b % 62);
        assert(x.push(c).drop_last() =~= x && y.push(d).drop_last() =~= y);
        lemma_base62_injective(a / 62, b / 62, shorter);
    }
}

/// Two different numbers are never written alike: the digits suffice for all of
/// them.
pub proof fn law_base62_injective(a: u128, b: u128)
    ensures
        base62(a as int, BASE62_LEN as nat) == base62(b as int, BASE62_LEN as nat) ==> a == b,
{
    if base62(a as int, BASE62_LEN as nat) == base62(b as int, BASE62_LEN as nat) {
        reveal_with_fuel(vstd::arithmetic::power::pow, 23);
        lemma_base62_injective(a as int, b as int, BASE62_LEN as nat);
    }
}

/// An identifier is always written with the same number of characters.
pub proof fn law_base62_len(n: int, len: nat)
    ensures
        base62(n, len).len() == len,
    decreases len,
{
    if len > 0 {
        law_base62_len(n / 62, (len - 1) as nat);
    }
}

} // verus!
