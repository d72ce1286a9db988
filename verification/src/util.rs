use vstd::prelude::*;
use vstd::string::StringExecFns;
use std::time::{Duration, SystemTime};
use winit::window::Icon;

verus! {

#[verifier::external_type_specification]
#[verifier::external_body]
pub struct ExSystemTime(SystemTime);

/// Calls `std::time::SystemTime::now`. Nothing is promised of the instant it returns.
#[verifier::external_body]
fn system_time_now() -> SystemTime {
    SystemTime::now()
}

/// Calls `std::time::SystemTime::duration_since` with `UNIX_EPOCH`, `None` standing for its
/// error (the instant lies before the epoch). Nothing is promised of which comes back.
#[verifier::external_body]
fn duration_since_unix_epoch(instant: &SystemTime) -> Option<Duration> {
    instant.duration_since(std::time::UNIX_EPOCH).ok()
}

/// Calls `std::time::Duration::as_millis`. Nothing is promised of the count it returns, since
/// the duration is opaque here.
#[verifier::external_body]
fn duration_as_millis(duration: &Duration) -> u128 {
    duration.as_millis()
}

/// The millisecond count reported when the system clock reads a time before the epoch.
pub const FALLBACK_MILLIS: u128 = 12345678900987654321;

/// The milliseconds since the epoch, given what the clock reported: the count itself, or the
/// fallback count when the clock lies before the epoch.
pub fn millis_since_epoch_or_fallback(elapsed_millis: Option<u128>) -> (res: u128)
    ensures
        res == match elapsed_millis {
            Some(n) => n,
            None => FALLBACK_MILLIS,
        },
{
    match elapsed_millis {
        Some(n) => n,
        None => FALLBACK_MILLIS,
    }
}

/// Gets system time in milliseconds since January 1st, 1970 (a fixed fallback count if the
/// clock lies before then).
pub fn get_millis_since_epoch() -> (res: u128) {
    let now = system_time_now();
    let elapsed = match duration_since_unix_epoch(&now) {
        Some(d) => Some(duration_as_millis(&d)),
        None => None,
    };
    millis_since_epoch_or_fallback(elapsed)
}

#[verifier::external_type_specification]
#[verifier::external_body]
pub struct ExIcon(Icon);

/// Whether RGBA bytes make up an image of the given size: whole 4-byte pixels, exactly
/// `width * height` of them.
pub open spec fn valid_icon_rgba(rgba: Seq<u8>, width: u32, height: u32) -> bool {
    rgba.len() % 4 == 0 && rgba.len() / 4 == width as int * height as int
}

/// Calls `winit::window::Icon::from_rgba`, `None` standing for its `BadIcon` error. The call
/// refuses bytes that are not whole 4-byte pixels, `width * height` of them; it multiplies
/// `width * height` in `u32`, so that product must fit. Success on well-formed bytes is left
/// unsaid: on some platforms the icon is also handed to the operating system, which may refuse it.
#[verifier::external_body]
fn icon_from_rgba(rgba: Vec<u8>, width: u32, height: u32) -> (res: Option<Icon>)
    requires
        width as int * height as int <= u32::MAX,
    ensures
        res is Some ==> valid_icon_rgba(rgba@, width, height),
{
    Icon::from_rgba(rgba, width, height).ok()
}

/// The side of the stand-in icon used when the logo cannot be read.
pub const FALLBACK_ICON_SIDE: u32 = 16;

/// The pixels of the window icon: the logo's RGBA bytes, width and height as read, or a black,
/// fully transparent 16 by 16 image (1024 zero bytes) when the logo could not be read.
pub fn window_icon_pixels(image: Option<(Vec<u8>, u32, u32)>) -> (res: (Vec<u8>, u32, u32))
    ensures
        image is None ==> res.0@ == Seq::new(1024, |i: int| 0u8) && res.1 == FALLBACK_ICON_SIDE
            && res.2 == FALLBACK_ICON_SIDE,
        image matches Some(img) ==> res == img,
{
    match image {
        Some(img) => img,
        None => {
            let mut rgba: Vec<u8> = Vec::new();
            let mut i: usize = 0;
            while i < 1024
                invariant
                    i <= 1024,
                    rgba@ == Seq::new(i as nat, |k: int| 0u8),
                decreases 1024 - i,
            {
                rgba.push(0u8);
                i = i + 1;
                assert(rgba@ =~= Seq::new(i as nat, |k: int| 0u8));
            }
            (rgba, FALLBACK_ICON_SIDE, FALLBACK_ICON_SIDE)
        },
    }
}

/// The window icon made from the logo as read (or the stand-in when it could not be read);
/// `None` whenever the logo's bytes do not make up an image of its stated size. Whether a
/// well-formed image is accepted rests with the windowing platform and is left unsaid.
pub fn window_icon(image: Option<(Vec<u8>, u32, u32)>) -> (res: Option<Icon>)
    requires
        image matches Some(img) ==> img.1 as int * img.2 as int <= u32::MAX,
    ensures
        image matches Some(img) ==> (res is Some ==> valid_icon_rgba(img.0@, img.1, img.2)),
{
    let (rgba, width, height) = window_icon_pixels(image);
    icon_from_rgba(rgba, width, height)
}

/// Marsaglia's xorshift step on a machine word, with shifts 13, 7 and 17.
pub open spec fn xorshift_usize(state: usize) -> usize {
    let a: usize = state ^ (state << 13usize);
    let b: usize = a ^ (a >> 7usize);
    b ^ (b << 17usize)
}

/// Marsaglia's xorshift step on 32 bits, with shifts 13, 17 and 5.
pub open spec fn xorshift_u32(state: u32) -> u32 {
    let a: u32 = state ^ (state << 13u32);
    let b: u32 = a ^ (a >> 17u32);
    b ^ (b << 5u32)
}

/// The pseudorandom word drawn from a clock reading and a seed: their sum, wrapping around
/// the word size, put through one xorshift step. The wrap is deliberate: the clock reading is
/// not the caller's to choose, so every reading and seed is accepted, the sum taken modulo the
/// word size.
pub fn xorshift_random_usize(millis: usize, seed: usize) -> (res: usize)
    ensures
        res == xorshift_usize(millis.wrapping_add(seed)),
{
    let mut rand: usize = millis.wrapping_add(seed);
    rand ^= rand << 13usize;
    rand ^= rand >> 7usize;
    rand ^= rand << 17usize;
    rand
}

/// The pseudorandom `u32` drawn from a clock reading and a seed: their sum, wrapping around
/// 32 bits, put through one xorshift step. The wrap is deliberate: the clock reading is not the
/// caller's to choose, so every reading and seed is accepted, the sum taken modulo 2^32.
pub fn xorshift_random_u32(millis: u32, seed: u32) -> (res: u32)
    ensures
        res == xorshift_u32(millis.wrapping_add(seed)),
{
    let mut rand: u32 = millis.wrapping_add(seed);
    rand ^= rand << 13u32;
    rand ^= rand >> 17u32;
    rand ^= rand << 5u32;
    rand
}

/// Generates a pseudorandom usize from the current time and a seed; based on "Xorshift RNGs"
/// by George Marsaglia.
pub fn generate_random_usize(seed: usize) -> (res: usize)
    ensures
        exists|millis: usize| res == #[trigger] xorshift_usize(millis.wrapping_add(seed)),
{
    let millis: usize = get_millis_since_epoch() as usize;
    xorshift_random_usize(millis, seed)
}

/// Generates a pseudorandom u32 from the current time and a seed; based on "Xorshift RNGs"
/// by George Marsaglia.
pub fn generate_random_u32(seed: u32) -> (res: u32)
    ensures
        exists|millis: u32| res == #[trigger] xorshift_u32(millis.wrapping_add(seed)),
{
    let millis: u32 = get_millis_since_epoch() as u32;
    xorshift_random_u32(millis, seed)
}

/// The taglines a window title may carry, the first being the preferred one.
pub open spec fn tagline(index: int) -> Seq<char> {
    if index == 0 {
        "Spilling encouraged!"@
    } else if index == 1 {
        "Don't cry over spilled milk!"@
    } else if index == 2 {
        "Drinking toilet water since 2023!"@
    } else if index == 3 {
        "Rivers Cuomo loves it!"@
    } else if index == 4 {
        "Domo Arigato, Mr. Roboto!"@
    } else {
        "Hydrate or diedrate!"@
    }
}

/// The tagline drawn from a random number: its remainder by twice the six taglines, less six,
/// with every negative outcome falling to the first tagline.
pub open spec fn tagline_index(random: usize) -> int {
    let r: int = (random % 12) as int;
    if r < 6 { 0 } else { r - 6 }
}

/// The window title built from a title and a random number.
pub open spec fn spec_window_title(title: Seq<char>, random: usize) -> Seq<char> {
    title + " ~ "@ + tagline(tagline_index(random))
}

/// Append the tagline that `random` selects to `title`, separated by " ~ ".
pub fn window_title_with_tagline(title: &str, random: usize) -> (res: String)
    ensures
        res@ == spec_window_title(title@, random),
{
    let silly_strings: [&str; 6] = [
        "Spilling encouraged!",
        "Don't cry over spilled milk!",
        "Drinking toilet water since 2023!",
        "Rivers Cuomo loves it!",
        "Domo Arigato, Mr. Roboto!",
        "Hydrate or diedrate!",
    ];
    let title_count: usize = 6;
    let mut random_index: i8 = (random % (title_count * 2)) as i8;
    random_index -= title_count as i8;
    if random_index < 0 {
        random_index = 0;
    }
    let tagline_text: &str = silly_strings[random_index as usize];
    assert(tagline_text@ == tagline(tagline_index(random)));
    let mut spruced_title: String = String::from_str(title);
    spruced_title.append(" ~ ");
    spruced_title.append(tagline_text);
    spruced_title
}

/// Create a window title with a fun message appended to the title parameter; the message is
/// drawn at random, with the first one preferred.
pub fn create_window_title(title: &str) -> (res: String)
    ensures
        exists|random: usize| res@ == #[trigger] spec_window_title(title@, random),
{
    let title_length: usize = title.len();
    let random: usize = generate_random_usize(title_length);
    window_title_with_tagline(title, random)
}

/// The tagline is one of the six, and the first is preferred: it is drawn for seven of every
/// twelve residues of the random number, each other tagline for exactly one. The title itself
/// always comes first, followed by " ~ ".
pub proof fn lemma_window_title_prefers_first_tagline(title: Seq<char>, random: usize)
    ensures
        0 <= tagline_index(random) < 6,
        tagline_index(random) == 0 <==> random % 12 <= 6,
        tagline_index(random) != 0 ==> tagline_index(random) == random % 12 - 6,
        spec_window_title(title, random).subrange(0, title.len() as int) == title,
        spec_window_title(title, random).subrange(title.len() as int, title.len() + 3int) == " ~ "@,
{
    reveal_strlit(" ~ ");
    let t = spec_window_title(title, random);
    assert(t.subrange(0, title.len() as int) =~= title);
    assert(t.subrange(title.len() as int, title.len() + 3int) =~= " ~ "@);
}

} // verus!
