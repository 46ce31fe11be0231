//! The media records the hub passes around, and the display line a track
//! listing shows for each track.

use vstd::prelude::*;

verus! {

use vstd::string::StringExecFns;

/// One anime record.
pub struct Anime {
    /// The service's identifier for the record.
    pub id: String,
    /// The display title.
    pub title: String,
    /// How many episodes the series has.
    pub episodes: u32,
}

/// One track record.
pub struct Track {
    /// The service's identifier for the record.
    pub id: String,
    /// The display title.
    pub title: String,
    /// The artist credit.
    pub artist: String,
    /// The track's length in milliseconds.
    pub duration_ms: u64,
}

/// Artist names joined with a comma and a space.
pub open spec fn spec_artists_joined(a: Seq<Seq<char>>) -> Seq<char>
    decreases a.len(),
{
    if a.len() == 0 {
        Seq::empty()
    } else if a.len() == 1 {
        a[0]
    } else {
        spec_artists_joined(a.drop_last()) + (", ")@ + a.last()
    }
}

/// The display line of a track: its name, a dash, then the artist credits
/// joined with commas.
pub open spec fn spec_track_line(name: Seq<char>, artists: Seq<Seq<char>>) -> Seq<char> {
    name + (" - ")@ + spec_artists_joined(artists)
}

/// Formats a track listing line from a track name and its artist names.
pub fn format_track_line(name: &str, artists: &Vec<String>) -> (r: String)
    ensures
        r@ == spec_track_line(name@, artists.deep_view()),
{
    let mut out = String::from_str(name);
    out.append(" - ");
    let n = artists.len();
    for i in 0..n
        invariant
            n == artists@.len(),
            out@ == name@ + (" - ")@ + spec_artists_joined(artists.deep_view().subrange(0, i as int)),
    {
        if i > 0 {
            out.append(", ");
        }
        out.append(artists[i].as_str());
        proof {
            let pre = artists.deep_view().subrange(0, i as int);
            let cur = artists.deep_view().subrange(0, i + 1);
            assert(cur.drop_last() =~= pre);
            assert(cur.last() == artists.deep_view()[i as int]);
            if i == 0 {
                assert(spec_artists_joined(cur) == artists.deep_view()[0]);
                assert(out@ =~= name@ + (" - ")@ + spec_artists_joined(cur));
            } else {
                assert(spec_artists_joined(cur) == spec_artists_joined(pre) + (", ")@
                    + artists.deep_view()[i as int]);
                assert(out@ =~= name@ + (" - ")@ + spec_artists_joined(cur));
            }
        }
    }
    proof {
        assert(artists.deep_view().subrange(0, n as int) =~= artists.deep_view());
    }
    out
}

} // verus!
