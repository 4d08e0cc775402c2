//! The catalog: the fixed table of symbols that samples are taken from.
//!
//! The table is written down group by group. The catalog is the groups one
//! after the other, in the order in which they stand here.

use vstd::prelude::*;

verus! {

/// The number of symbols in the catalog.
pub const CATALOG_LEN: usize = 304;

/// Faces.
pub const FACES: [&'static str; 40] = [
    "😀", "😃", "😄", "😁", "😆", "😅", "🤣", "😂", "🙂", "🙃",
    "😉", "😊", "😇", "🇧🇩", "😈", "🤩", "✅", "🤖", "👨🏾‍💻", "🤯",
    "😋", "😛", "😜", "🤪", "😝", "🤑", "🤗", "🤭", "🤫", "🤔",
    "🤐", "🤨", "😐", "😑", "😶", "😏", "😒", "🙄", "😬", "🤥",
];

/// Animals.
pub const ANIMALS: [&'static str; 40] = [
    "🐶", "🐱", "🐭", "🐹", "🐰", "🦊", "🐻", "🐼", "🐨", "🐯",
    "🦁", "🐮", "🐷", "🐸", "🐵", "🙈", "🙉", "🙊", "🐒", "🐔",
    "🐧", "🐦", "🐤", "🐣", "🐥", "🦆", "🦅", "🦉", "🦇", "🐺",
    "🐗", "🐴", "🦄", "🐝", "🐛", "🦋", "🐌", "🐞", "🐜", "🦟",
];

/// Food.
pub const FOOD: [&'static str; 40] = [
    "🍎", "🍐", "🍊", "🍋", "🍌", "🍉", "🍇", "🍓", "🫐", "🍈",
    "🍒", "🍑", "🥭", "🍍", "🥥", "🥝", "🍅", "🍆", "🥑", "🥦",
    "🥬", "🥒", "🌶️", "🫑", "🌽", "🥕", "🫒", "🧄", "🧅", "🥔",
    "🍞", "🥐", "🥖", "🫓", "🥨", "🥯", "🥞", "🧇", "🧀", "🍖",
];

/// Sports and games.
pub const ACTIVITIES: [&'static str; 30] = [
    "⚽", "🏀", "🏈", "⚾", "🥎", "🎾", "🏐", "🏉", "🥏", "🎱",
    "🪀", "🏓", "🏸", "🏒", "🏑", "🥍", "🏏", "🪃", "🥅", "⛳",
    "🪁", "🏹", "🎣", "🤿", "🥊", "🥋", "🎽", "🛹", "🛷", "⛸️",
];

/// Devices.
pub const OBJECTS: [&'static str; 30] = [
    "⌚", "📱", "📲", "💻", "⌨️", "🖥️", "🖨️", "🖱️", "🖲️", "🕹️",
    "🗜️", "💽", "💾", "💿", "📀", "📼", "📷", "📸", "📹", "🎥",
    "📞", "☎️", "📟", "📠", "📺", "📻", "🎙️", "🎚️", "🎛️", "🧭",
];

/// Weather.
pub const WEATHER: [&'static str; 20] = [
    "☀️", "🌤️", "⛅", "🌥️", "☁️", "🌦️", "🌧️", "⛈️", "🌩️", "🌨️",
    "❄️", "☃️", "⛄", "🌬️", "💨", "🌪️", "🌫️", "🌊", "💧", "💦",
];

/// Plants.
pub const NATURE: [&'static str; 14] = [
    "🌱", "🌿", "☘️", "🍀", "🎍", "🎋", "🍃", "🍂", "🍁", "🌾",
    "🌵", "🌴", "🌳", "🌲",
];

/// Buildings and places.
pub const PLACES: [&'static str; 27] = [
    "🏠", "🏡", "🏢", "🏣", "🏤", "🏥", "🏦", "🏨", "🏩", "🏪",
    "🏫", "🏬", "🏭", "🏯", "🏰", "🏗️", "🏘️", "🏚️", "🌇", "🌆",
    "🌃", "🌉", "🌌", "🗼", "🗽", "⛪", "🕌",
];

/// Vehicles.
pub const TRANSPORTATION: [&'static str; 39] = [
    "🚗", "🚕", "🚙", "🚌", "🚎", "🏎️", "🚓", "🚑", "🚒", "🚐",
    "🚚", "🚛", "🚜", "🚲", "🛴", "🛵", "🏍️", "🚨", "🚔", "🚍",
    "🚘", "🚖", "🚡", "🚠", "🚟", "🚃", "🚋", "🚝", "🚄", "🚅",
    "🚈", "🚂", "🚆", "🚇", "🚊", "✈️", "🛩️", "🛫", "🛬",
];

/// Craft, signs and flags.
pub const TECHNOLOGY: [&'static str; 24] = [
    "🛰️", "🚀", "🛸", "💺", "🚁", "🚤", "⛵", "🛳️", "⚓", "⛽",
    "🚧", "🚦", "🚥", "🛑", "🚏", "🗺️", "🗿", "🏴‍☠️", "🏳️‍🌈", "🏳️‍⚧️",
    "🏁", "🚩", "🎌", "🏳️",
];

/// The texts of the symbols of one group.
pub open spec fn texts(group: Seq<&'static str>) -> Seq<Seq<char>> {
    Seq::new(group.len(), |i: int| group[i]@)
}

/// The symbols of the catalog, in catalog order.
pub open spec fn catalog() -> Seq<Seq<char>> {
    texts(FACES@)
        + texts(ANIMALS@)
        + texts(FOOD@)
        + texts(ACTIVITIES@)
        + texts(OBJECTS@)
        + texts(WEATHER@)
        + texts(NATURE@)
        + texts(PLACES@)
        + texts(TRANSPORTATION@)
        + texts(TECHNOLOGY@)
}

} // verus!
