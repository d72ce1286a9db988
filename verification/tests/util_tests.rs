use juicebox::error::Error;
use juicebox::file_system::trim_juice_extension;
use juicebox::util::{
    create_window_title, generate_random_u32, generate_random_usize, get_millis_since_epoch,
    millis_since_epoch_or_fallback, window_title_with_tagline, xorshift_random_u32, xorshift_random_usize,
};

const TAGLINES: [&str; 6] = [
    "Spilling encouraged!",
    "Don't cry over spilled milk!",
    "Drinking toilet water since 2023!",
    "Rivers Cuomo loves it!",
    "Domo Arigato, Mr. Roboto!",
    "Hydrate or diedrate!",
];

#[test]
fn error_messages() {
    assert_eq!(Error::GridSizeError("bad").message(), "Grid layout invalidly set: `bad`");
    assert_eq!(Error::VectorLengthMismatch("u").message(), "Mismatched vector lengths: `u`");
    assert_eq!(Error::NoParticlesFound("none").message(), "No particles found: `none`");
    assert_eq!(
        Error::OutOfGridBounds("X-coord. is out of bounds!").message(),
        "Out of grid bounds: `X-coord. is out of bounds!`"
    );
}

#[test]
fn fallback_millis_when_clock_before_epoch() {
    assert_eq!(millis_since_epoch_or_fallback(None), 12345678900987654321);
    assert_eq!(millis_since_epoch_or_fallback(Some(42)), 42);
}

#[test]
fn clock_reads_after_epoch() {
    let millis: u128 = get_millis_since_epoch();
    assert!(millis > 1_600_000_000_000);
    assert!(millis != 12345678900987654321);
}

#[test]
fn xorshift_exact_values() {
    assert_eq!(xorshift_random_u32(0, 1), 270369);
    assert_eq!(xorshift_random_u32(u32::MAX, 2), 270369);
    assert_eq!(xorshift_random_u32(0, 0), 0);
    assert_eq!(xorshift_random_usize(0, 0), 0);
    if usize::BITS == 64 {
        assert_eq!(xorshift_random_usize(0, 1), 1082269761);
        assert_eq!(xorshift_random_usize(usize::MAX, 2), 1082269761);
    }
}

#[test]
fn random_numbers_are_generated() {
    let a: usize = generate_random_usize(3);
    let b: u32 = generate_random_u32(3);
    let _ = (a, b);
}

#[test]
fn window_title_taglines() {
    assert_eq!(window_title_with_tagline("JuiceBox", 0), "JuiceBox ~ Spilling encouraged!");
    assert_eq!(window_title_with_tagline("JuiceBox", 6), "JuiceBox ~ Spilling encouraged!");
    assert_eq!(window_title_with_tagline("JuiceBox", 18), "JuiceBox ~ Spilling encouraged!");
    assert_eq!(window_title_with_tagline("JuiceBox", 7), "JuiceBox ~ Don't cry over spilled milk!");
    assert_eq!(window_title_with_tagline("JuiceBox", 9), "JuiceBox ~ Rivers Cuomo loves it!");
    assert_eq!(window_title_with_tagline("JuiceBox", 23), "JuiceBox ~ Hydrate or diedrate!");
    assert_eq!(window_title_with_tagline("", 8), " ~ Drinking toilet water since 2023!");
}

#[test]
fn created_window_title_keeps_title() {
    let title = create_window_title("The Award-Winning JuiceBox");
    let rest = title.strip_prefix("The Award-Winning JuiceBox ~ ").expect("title prefix");
    assert!(TAGLINES.contains(&rest));
}

#[test]
fn trim_extension_of_saved_file() {
    assert_eq!(trim_juice_extension("saves/my-file.juice"), "saves/my-file");
    assert_eq!(trim_juice_extension(".juice"), "");
    assert_eq!(trim_juice_extension("dossier/été.juice"), "dossier/été");
}

#[test]
fn stand_in_icon_pixels() {
    let (rgba, width, height) = juicebox::util::window_icon_pixels(None);
    assert_eq!(rgba.len(), 1024);
    assert!(rgba.iter().all(|b| *b == 0));
    assert_eq!((width, height), (16, 16));
    let logo: (Vec<u8>, u32, u32) = (vec![1, 2, 3, 4, 5, 6, 7, 8], 2, 1);
    assert_eq!(juicebox::util::window_icon_pixels(Some(logo.clone())), logo);
}

#[test]
fn window_icon_validity() {
    assert!(juicebox::util::window_icon(None).is_some());
    assert!(juicebox::util::window_icon(Some((vec![0; 8], 2, 1))).is_some());
    assert!(juicebox::util::window_icon(Some((vec![0; 4], 1, 1))).is_some());
    assert!(juicebox::util::window_icon(Some((vec![0; 7], 2, 1))).is_none());
    assert!(juicebox::util::window_icon(Some((vec![0; 8], 2, 2))).is_none());
}
