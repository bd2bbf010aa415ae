//! The airport and runway repository: runway records are prepared
//! (headings, surface), joined to their airports (elevations back-filled),
//! and indexed by airport identifier.

use vstd::prelude::*;
use vstd::hash_map::{HashMapWithView, StringHashMap};
use vstd::string::*;

verus! {

broadcast use vstd::std_specs::hash::group_hash_axioms, vstd::seq_lib::group_seq_properties;

/// A runway, with what is known of each of its two ends.
#[derive(Debug)]
pub struct Runway {
    pub airport_ref: u32,
    pub length: u16,
    pub surface: String,
    pub le_ident: String,
    pub le_elevation: i16,
    /// Recorded true heading of the low end, in whole degrees.
    pub le_heading_raw: u16,
    pub le_heading: u16,
    pub le_displaced_threshold: u16,
    pub he_ident: String,
    pub he_elevation: i16,
    /// Recorded true heading of the high end, in whole degrees.
    pub he_heading_raw: u16,
    pub he_heading: u16,
    pub he_displaced_threshold: u16,
    pub is_grass: bool,
}

/// An airport and its runways. Latitude and longitude are in millionths
/// of a degree.
#[derive(Debug)]
pub struct Airport {
    pub id: u32,
    pub ident: String,
    pub name: String,
    pub latitude: i32,
    pub longitude: i32,
    pub elevation: i16,
    pub runways: Vec<Runway>,
}

/// Whether `c` is an ASCII decimal digit.
pub open spec fn is_ascii_digit(c: char) -> bool {
    '0' <= c && c <= '9'
}

/// The number of ASCII digits `s` starts with.
pub open spec fn digit_prefix_len(s: Seq<char>) -> nat
    decreases s.len(),
{
    if s.len() > 0 && is_ascii_digit(s[0]) {
        1 + digit_prefix_len(s.drop_first())
    } else {
        0
    }
}

/// The value of a sequence of ASCII digits, read in base 10.
pub open spec fn decimal_value(s: Seq<char>) -> nat
    decreases s.len(),
{
    if s.len() == 0 {
        0
    } else {
        decimal_value(s.drop_last()) * 10 + ((s.last() as u32) - ('0' as u32)) as nat
    }
}

/// The number `s` starts with: an optional sign, then the leading ASCII
/// digits. Nothing when there is neither sign nor digit, when the value
/// does not fit `u16`, and when a minus sign precedes a nonzero value.
pub open spec fn leading_u16(s: Seq<char>) -> Option<u16> {
    let signed = s.len() > 0 && (s[0] == '+' || s[0] == '-');
    let body = if signed {
        s.drop_first()
    } else {
        s
    };
    let value = decimal_value(body.take(digit_prefix_len(body) as int));
    if !signed && digit_prefix_len(body) == 0 {
        None
    } else if signed && s[0] == '-' {
        if value == 0 {
            Some(0u16)
        } else {
            None
        }
    } else if value > u16::MAX {
        None
    } else {
        Some(value as u16)
    }
}

/// Relies on `atoi::atoi::<u16>`: it reads an optional sign and then the
/// leading ASCII digits of the bytes, and gives `None` when nothing was
/// read or the value overflows (for `u16`, any negative value but zero).
/// A UTF-8 string starts with the sign and digit bytes exactly where it
/// starts with the sign and digit characters.
#[verifier::external_body]
fn leading_number(s: &str) -> (r: Option<u16>)
    ensures
        r == leading_u16(s@),
{
    atoi::atoi::<u16>(s.as_bytes())
}

/// The heading a runway end's identifier gives: ten times its leading
/// number ("09" is 90°), or 0 when it has none (or ten times it would not
/// fit `u16`).
pub open spec fn heading_from_ident(ident: Seq<char>) -> u16 {
    match leading_u16(ident) {
        Some(v) => if v <= 6553 {
            (v * 10) as u16
        } else {
            0
        },
        None => 0,
    }
}

/// The heading of a runway end, from the number its identifier starts
/// with.
pub fn heading_from_runway_number(ident: &String) -> (r: u16)
    ensures
        r == heading_from_ident(ident@),
{
    match leading_number(ident.as_str()) {
        Some(value) => if value <= 6553 {
            value * 10
        } else {
            0
        },
        None => 0,
    }
}

/// Whether `needle` occurs in `hay`.
pub open spec fn contains_chars(hay: Seq<char>, needle: Seq<char>) -> bool {
    exists|i: int|
        0 <= i && i + needle.len() <= hay.len() && #[trigger] hay.subrange(i, i + needle.len())
            == needle
}

fn chars_of(s: &str) -> (r: Vec<char>)
    ensures
        r@ == s@,
{
    let mut out: Vec<char> = Vec::new();
    for c in iter: s.chars()
        invariant
            out@ == iter.seq().take(iter.index() as int),
    {
        out.push(c);
    }
    assert(out@ =~= s@);
    out
}

fn matches_at(hay: &Vec<char>, needle: &Vec<char>, start: usize) -> (r: bool)
    requires
        start + needle@.len() <= hay@.len(),
    ensures
        r == (hay@.subrange(start as int, start + needle@.len()) == needle@),
{
    let hay_len = hay.len();
    let mut k: usize = 0;
    while k < needle.len()
        invariant
            k <= needle@.len(),
            start + needle@.len() <= hay@.len(),
            hay_len == hay@.len(),
            forall|j: int| 0 <= j < k ==> hay@[start + j] == needle@[j],
        decreases needle@.len() - k,
    {
        assert(start + k < hay@.len());
        if hay[start + k] != needle[k] {
            assert(hay@.subrange(start as int, start + needle@.len())[k as int] != needle@[k as int]);
            return false;
        }
        k = k + 1;
    }
    assert(hay@.subrange(start as int, start + needle@.len()) =~= needle@);
    true
}

/// Whether `needle` occurs in `hay`, matched case-sensitively.
pub fn contains_text(hay: &str, needle: &str) -> (r: bool)
    ensures
        r == contains_chars(hay@, needle@),
{
    let h = chars_of(hay);
    let n = chars_of(needle);
    if n.len() > h.len() {
        return false;
    }
    let last = h.len() - n.len();
    let mut i: usize = 0;
    while i < last
        invariant
            i <= last,
            last + n@.len() == h@.len(),
            h@ == hay@,
            n@ == needle@,
            forall|j: int| 0 <= j < i ==> #[trigger] h@.subrange(j, j + n@.len()) != n@,
        decreases last - i,
    {
        if matches_at(&h, &n, i) {
            return true;
        }
        i = i + 1;
    }
    matches_at(&h, &n, last)
}

/// Whether a surface description names grass: it contains GRASS, TURF,
/// SOD or GRS.
pub open spec fn is_grass_spec(surface: Seq<char>) -> bool {
    contains_chars(surface, "GRASS"@) || contains_chars(surface, "TURF"@) || contains_chars(
        surface,
        "SOD"@,
    ) || contains_chars(surface, "GRS"@)
}

/// Whether a surface description names grass.
pub fn is_grass_surface(surface: &str) -> (r: bool)
    ensures
        r == is_grass_spec(surface@),
{
    contains_text(surface, "GRASS") || contains_text(surface, "TURF") || contains_text(surface, "SOD")
        || contains_text(surface, "GRS")
}

/// The heading of one runway end: ten times the number its identifier
/// starts with, or the end's recorded heading when that gives 0 or nothing.
pub open spec fn end_heading(ident: Seq<char>, recorded: u16) -> u16 {
    if heading_from_ident(ident) != 0 {
        heading_from_ident(ident)
    } else {
        recorded
    }
}

/// A runway record with its derived fields: each end's heading on its own
/// (from its identifier, else its recorded heading), and the grass flag
/// from the surface description.
pub open spec fn prepared(r: Runway) -> Runway {
    Runway {
        le_heading: end_heading(r.le_ident@, r.le_heading_raw),
        he_heading: end_heading(r.he_ident@, r.he_heading_raw),
        is_grass: is_grass_spec(r.surface@),
        ..r
    }
}

fn runway_end_heading(ident: &String, recorded: u16) -> (r: u16)
    ensures
        r == end_heading(ident@, recorded),
{
    let heading = heading_from_runway_number(ident);
    if heading != 0 {
        heading
    } else {
        recorded
    }
}

/// Fills in a runway's derived fields: headings and the grass flag.
pub fn prepare_runway(runway: Runway) -> (r: Runway)
    ensures
        r == prepared(runway),
{
    let mut runway = runway;
    runway.le_heading = runway_end_heading(&runway.le_ident, runway.le_heading_raw);
    runway.he_heading = runway_end_heading(&runway.he_ident, runway.he_heading_raw);
    runway.is_grass = is_grass_surface(runway.surface.as_str());
    runway
}

/// A runway whose unspecified (zero) end elevations are taken from its
/// airport's elevation.
pub open spec fn back_filled(r: Runway, elevation: i16) -> Runway {
    Runway {
        le_elevation: if r.le_elevation == 0 {
            elevation
        } else {
            r.le_elevation
        },
        he_elevation: if r.he_elevation == 0 {
            elevation
        } else {
            r.he_elevation
        },
        ..r
    }
}

/// [`back_filled`] with a fixed airport elevation.
pub open spec fn back_fill_with(elevation: i16) -> spec_fn(Runway) -> Runway {
    |r: Runway| back_filled(r, elevation)
}

/// Whether a runway belongs to the airport with id `id`.
pub open spec fn owned_by(id: u32) -> spec_fn(Runway) -> bool {
    |r: Runway| r.airport_ref == id
}

/// The prepared runways of an airport, in record order.
pub open spec fn owned_runways(runways: Seq<Runway>, id: u32) -> Seq<Runway> {
    runways.filter(owned_by(id)).map_values(|r: Runway| prepared(r))
}

/// Whether no airport record before the `i`-th has its id: the first
/// airport with an id takes that id's runways.
pub open spec fn claims_runways(airports: Seq<Airport>, i: int) -> bool {
    forall|j: int| 0 <= j < i ==> #[trigger] airports[j].id != airports[i].id
}

/// The runways the `i`-th airport record ends up with.
pub open spec fn joined_runways(runways: Seq<Runway>, airports: Seq<Airport>, i: int) -> Seq<Runway> {
    if claims_runways(airports, i) {
        owned_runways(runways, airports[i].id).map_values(back_fill_with(airports[i].elevation))
    } else {
        Seq::empty()
    }
}

/// Whether `a` is the airport record `source` holding `runways`.
pub open spec fn is_joined(a: Airport, source: Airport, runways: Seq<Runway>) -> bool {
    &&& a.id == source.id
    &&& a.ident == source.ident
    &&& a.name == source.name
    &&& a.latitude == source.latitude
    &&& a.longitude == source.longitude
    &&& a.elevation == source.elevation
    &&& a.runways@ == runways
}

/// Whether the `i`-th airport record is the last one with its identifier
/// among the first `n` records.
pub open spec fn is_last_before(airports: Seq<Airport>, i: int, n: int) -> bool {
    &&& 0 <= i < n
    &&& forall|j: int| i < j < n ==> #[trigger] airports[j].ident@ != airports[i].ident@
}

/// Whether the `i`-th airport record is the last one with its identifier.
pub open spec fn is_last_with_ident(airports: Seq<Airport>, i: int) -> bool {
    is_last_before(airports, i, airports.len() as int)
}

/// Airports indexed by identifier, built once and then only read.
pub struct AirportHash {
    airports: StringHashMap<Airport>,
}

impl View for AirportHash {
    type V = Map<Seq<char>, Airport>;

    closed spec fn view(&self) -> Map<Seq<char>, Airport> {
        self.airports@
    }
}

/// The airport an identifier finds: the airport of exactly that
/// identifier, or else the airport of the identifier without its first
/// character (a four-letter code whose three-letter form is indexed).
pub open spec fn lookup_spec(index: Map<Seq<char>, Airport>, identifier: Seq<char>) -> Option<Airport> {
    if index.contains_key(identifier) {
        Some(index[identifier])
    } else if identifier.len() > 0 && index.contains_key(identifier.drop_first()) {
        Some(index[identifier.drop_first()])
    } else {
        None
    }
}

impl AirportHash {
    /// Whether the index is the join of the runway and airport records:
    /// one entry per identifier, holding the last airport record with it
    /// and that record's runways.
    pub open spec fn spec_built_from(self, runways: Seq<Runway>, airports: Seq<Airport>) -> bool {
        &&& forall|k: Seq<char>|
            self@.contains_key(k) <==> exists|j: int|
                0 <= j < airports.len() && #[trigger] airports[j].ident@ == k
        &&& forall|k: Seq<char>|
            #[trigger] self@.contains_key(k) ==> exists|j: int|
                #[trigger] is_last_before(airports, j, airports.len() as int) && airports[j].ident@
                    == k
        &&& forall|j: int|
            #[trigger] is_last_with_ident(airports, j) ==> is_joined(
                self@[airports[j].ident@],
                airports[j],
                joined_runways(runways, airports, j),
            )
    }

    /// The airport an identifier finds; identifiers match
    /// case-sensitively. The shortened identifier is tried only when the
    /// identifier itself is absent.
    pub fn load_by_identifier(&self, identifier: &str) -> (r: Option<&Airport>)
        ensures
            match r {
                Some(a) => lookup_spec(self@, identifier@) == Some(*a),
                None => lookup_spec(self@, identifier@) is None,
            },
            self@.contains_key(identifier@) ==> r == Some(&self@[identifier@]),
    {
        if self.airports.contains_key(identifier) {
            self.airports.get(identifier)
        } else {
            let length = identifier.unicode_len();
            if length == 0 {
                return None;
            }
            let short_identifier = identifier.substring_char(1, length);
            assert(short_identifier@ =~= identifier@.drop_first());
            if self.airports.contains_key(short_identifier) {
                self.airports.get(short_identifier)
            } else {
                None
            }
        }
    }
}

fn reversed<T>(v: Vec<T>) -> (r: Vec<T>)
    ensures
        r@.len() == v@.len(),
        forall|k: int| 0 <= k < v@.len() ==> r@[k] == v@[v@.len() - 1 - k],
{
    let ghost original = v@;
    let mut v = v;
    let mut out: Vec<T> = Vec::new();
    while v.len() > 0
        invariant
            out@.len() + v@.len() == original.len(),
            v@ == original.take(v@.len() as int),
            forall|k: int| 0 <= k < out@.len() ==> out@[k] == original[original.len() - 1 - k],
        decreases v@.len(),
    {
        match v.pop() {
            Some(x) => {
                out.push(x);
            },
            None => {},
        }
    }
    out
}

fn back_fill(runways: Vec<Runway>, elevation: i16) -> (r: Vec<Runway>)
    ensures
        r@ == runways@.map_values(back_fill_with(elevation)),
{
    let ghost original = runways@;
    let mut rest = reversed(runways);
    let mut out: Vec<Runway> = Vec::new();
    while rest.len() > 0
        invariant
            out@.len() + rest@.len() == original.len(),
            forall|k: int| 0 <= k < rest@.len() ==> rest@[k] == original[original.len() - 1 - k],
            out@ == original.take(out@.len() as int).map_values(back_fill_with(elevation)),
        decreases rest@.len(),
    {
        let ghost i = out@.len() as int;
        let mut runway = rest.pop().unwrap();
        if runway.le_elevation == 0 {
            runway.le_elevation = elevation;
        }
        if runway.he_elevation == 0 {
            runway.he_elevation = elevation;
        }
        out.push(runway);
        assert(original.take(i + 1) =~= original.take(i).push(original[i]));
        assert(out@ =~= original.take(i + 1).map_values(back_fill_with(elevation)));
    }
    assert(original.take(original.len() as int) =~= original);
    out
}

proof fn lemma_owned_runways_push(runways: Seq<Runway>, r: Runway, id: u32)
    ensures
        owned_runways(runways.push(r), id) == if r.airport_ref == id {
            owned_runways(runways, id).push(prepared(r))
        } else {
            owned_runways(runways, id)
        },
{
    runways.lemma_filter_push(r, owned_by(id));
    if r.airport_ref == id {
        assert(runways.filter(owned_by(id)).push(r).map_values(|x: Runway| prepared(x))
            =~= runways.filter(owned_by(id)).map_values(|x: Runway| prepared(x)).push(prepared(r)));
    }
}

/// Groups prepared runway records by the airport they belong to.
fn group_runways(runways: Vec<Runway>) -> (groups: HashMapWithView<u32, Vec<Runway>>)
    ensures
        forall|id: u32| #[trigger]
            groups@.contains_key(id) <==> owned_runways(runways@, id).len() > 0,
        forall|id: u32| #[trigger]
            groups@.contains_key(id) ==> groups@[id]@ == owned_runways(runways@, id),
{
    let ghost original = runways@;
    let mut groups: HashMapWithView<u32, Vec<Runway>> = HashMapWithView::new();
    let mut rest = reversed(runways);
    let ghost mut i: int = 0;
    while rest.len() > 0
        invariant
            0 <= i,
            i + rest@.len() == original.len(),
            forall|k: int| 0 <= k < rest@.len() ==> rest@[k] == original[original.len() - 1 - k],
            forall|id: u32| #[trigger]
                groups@.contains_key(id) <==> owned_runways(original.take(i), id).len() > 0,
            forall|id: u32| #[trigger]
                groups@.contains_key(id) ==> groups@[id]@ == owned_runways(original.take(i), id),
        decreases rest@.len(),
    {
        let record = rest.pop().unwrap();
        proof {
            assert(record == original[i]);
            assert(original.take(i + 1) =~= original.take(i).push(record));
            assert forall|id: u32| #[trigger]
                owned_runways(original.take(i + 1), id) == if record.airport_ref == id {
                    owned_runways(original.take(i), id).push(prepared(record))
                } else {
                    owned_runways(original.take(i), id)
                } by {
                lemma_owned_runways_push(original.take(i), record, id);
            }
        }
        let runway = prepare_runway(record);
        let id = runway.airport_ref;
        let mut group = match groups.remove(&id) {
            Some(g) => g,
            None => Vec::new(),
        };
        group.push(runway);
        groups.insert(id, group);
        proof {
            i = i + 1;
        }
    }
    assert(original.take(i) =~= original);
    groups
}

/// Builds the airport index from the two record sets: runway records are
/// prepared (headings, grass flag) and handed, in record order, to the
/// first airport record with their airport id, whose elevation fills in
/// their unspecified end elevations; airports are indexed by identifier,
/// a later record replacing an earlier one with the same identifier. Any
/// runways the airport records already hold are replaced; an airport
/// without runway records gets none.
pub fn load_airports(runways: Vec<Runway>, airports: Vec<Airport>) -> (r: AirportHash)
    ensures
        r.spec_built_from(runways@, airports@),
{
    let ghost runway_records = runways@;
    let ghost records = airports@;
    let mut groups = group_runways(runways);
    let mut index: StringHashMap<Airport> = StringHashMap::new();
    let mut rest = reversed(airports);
    let ghost mut i: int = 0;
    while rest.len() > 0
        invariant
            0 <= i,
            i + rest@.len() == records.len(),
            forall|k: int| 0 <= k < rest@.len() ==> rest@[k] == records[records.len() - 1 - k],
            forall|id: u32| #[trigger]
                groups@.contains_key(id) <==> (owned_runways(runway_records, id).len() > 0
                    && forall|j: int| 0 <= j < i ==> #[trigger] records[j].id != id),
            forall|id: u32| #[trigger]
                groups@.contains_key(id) ==> groups@[id]@ == owned_runways(runway_records, id),
            forall|k: Seq<char>|
                index@.contains_key(k) <==> exists|j: int|
                    0 <= j < i && #[trigger] records[j].ident@ == k,
            forall|k: Seq<char>|
                #[trigger] index@.contains_key(k) ==> exists|j: int|
                    #[trigger] is_last_before(records, j, i) && records[j].ident@ == k,
            forall|j: int|
                #[trigger] is_last_before(records, j, i) ==> is_joined(
                    index@[records[j].ident@],
                    records[j],
                    joined_runways(runway_records, records, j),
                ),
        decreases rest@.len(),
    {
        let mut airport = rest.pop().unwrap();
        assert(airport == records[i]);
        let ghost id = airport.id;
        let owned = match groups.remove(&airport.id) {
            Some(group) => back_fill(group, airport.elevation),
            None => Vec::new(),
        };
        proof {
            if claims_runways(records, i) {
                if owned_runways(runway_records, id).len() == 0 {
                    assert(owned_runways(runway_records, id).map_values(
                        back_fill_with(airport.elevation),
                    ) =~= Seq::<Runway>::empty());
                }
            } else {
                let j0 = choose|j: int| 0 <= j < i && #[trigger] records[j].id == records[i].id;
                assert(records[j0].id == id);
            }
            assert(owned@ == joined_runways(runway_records, records, i));
        }
        airport.runways = owned;
        let key = airport.ident.clone();
        index.insert(key, airport);
        proof {
            assert forall|k: Seq<char>|
                index@.contains_key(k) <==> exists|j: int|
                    0 <= j < i + 1 && #[trigger] records[j].ident@ == k by {
                if index@.contains_key(k) && k != records[i].ident@ {
                    let j = choose|j: int| 0 <= j < i && #[trigger] records[j].ident@ == k;
                    assert(0 <= j < i + 1 && records[j].ident@ == k);
                }
                if k == records[i].ident@ {
                    assert(0 <= i < i + 1 && records[i].ident@ == k);
                }
            }
            assert forall|k: Seq<char>| #[trigger] index@.contains_key(k) implies exists|j: int|
                #[trigger] is_last_before(records, j, i + 1) && records[j].ident@ == k by {
                if k == records[i].ident@ {
                    assert(is_last_before(records, i, i + 1));
                } else {
                    let j = choose|j: int| #[trigger] is_last_before(records, j, i) && records[j].ident@ == k;
                    assert(is_last_before(records, j, i + 1));
                }
            }
            assert forall|j: int| #[trigger] is_last_before(records, j, i + 1) implies is_joined(
                index@[records[j].ident@],
                records[j],
                joined_runways(runway_records, records, j),
            ) by {
                if j < i {
                    assert(is_last_before(records, j, i));
                    assert(records[i].ident@ != records[j].ident@);
                }
            }
            i = i + 1;
        }
    }
    AirportHash { airports: index }
}

/// After the join, every runway an indexed airport holds comes from a
/// runway record of that airport; an end whose record gives an elevation
/// of 0 has the airport's elevation, and any other end keeps its recorded
/// elevation.
pub proof fn lemma_runway_elevations_back_filled(
    index: AirportHash,
    runways: Seq<Runway>,
    airports: Seq<Airport>,
    k: Seq<char>,
    j: int,
)
    requires
        index.spec_built_from(runways, airports),
        index@.contains_key(k),
        0 <= j < index@[k].runways@.len(),
    ensures
        exists|source: Runway|
            {
                let airport = index@[k];
                let runway = airport.runways@[j];
                &&& #[trigger] runways.contains(source)
                &&& source.airport_ref == airport.id
                &&& runway.airport_ref == source.airport_ref
                &&& runway.le_elevation == if source.le_elevation == 0 {
                    airport.elevation
                } else {
                    source.le_elevation
                }
                &&& runway.he_elevation == if source.he_elevation == 0 {
                    airport.elevation
                } else {
                    source.he_elevation
                }
            },
{
    let i = choose|i: int| #[trigger] is_last_before(airports, i, airports.len() as int) && airports[i].ident@ == k;
    assert(is_last_with_ident(airports, i));
    let id = airports[i].id;
    let filtered = runways.filter(owned_by(id));
    if claims_runways(airports, i) {
        assert(0 <= j < filtered.len());
        runways.lemma_filter_pred(owned_by(id), j);
        let source = filtered[j];
        assert(filtered.contains(source));
        runways.lemma_filter_contains_rev(owned_by(id), source);
        assert(runways.contains(source));
    }
}

} // verus!
