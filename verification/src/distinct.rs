//! The catalog repeats no symbol.
//!
//! Every group of the catalog draws the first characters of its symbols from
//! its own stretches of the code space, so no symbol stands in two groups;
//! and within a group any two symbols differ in their first character or in
//! their length.

use vstd::prelude::*;
use crate::catalog::{
    catalog, texts, ACTIVITIES, ANIMALS, CATALOG_LEN, FACES, FOOD, NATURE, OBJECTS, PLACES,
    TECHNOLOGY, TRANSPORTATION, WEATHER,
};

verus! {

/// The first character of a text, as a number.
spec fn lead(text: Seq<char>) -> int {
    text[0] as int
}

/// The number of the group whose symbols begin with the character `c`. Each
/// group draws its first characters from a few stretches of the code space,
/// and no stretch of one group meets a stretch of another.
spec fn home(c: int) -> int {
    if c == 0x2705 || c == 0x1F1E7 || c == 0x1F468 || 0x1F600 <= c <= 0x1F644
        || 0x1F910 <= c <= 0x1F92F {
        0
    } else if 0x1F40C <= c <= 0x1F43C || 0x1F648 <= c <= 0x1F64A || 0x1F981 <= c <= 0x1F99F {
        1
    } else if 0x1F336 <= c <= 0x1F33D || 0x1F345 <= c <= 0x1F35E || 0x1F950 <= c <= 0x1F96F
        || 0x1F9C0 <= c <= 0x1F9C7 || 0x1FAD0 <= c <= 0x1FAD3 {
        2
    } else if 0x26BD <= c <= 0x26BE || c == 0x26F3 || c == 0x26F8 || c == 0x1F3A3
        || 0x1F3B1 <= c <= 0x1F3C0 || 0x1F3C8 <= c <= 0x1F3C9
        || 0x1F3CF <= c <= 0x1F3D3 || 0x1F3F8 <= c <= 0x1F3F9 || c == 0x1F6F7
        || c == 0x1F6F9 || 0x1F93F <= c <= 0x1F94F || 0x1FA80 <= c <= 0x1FA83 {
        3
    } else if 0x231A <= c <= 0x2328 || c == 0x260E || 0x1F399 <= c <= 0x1F39B
        || c == 0x1F3A5 || 0x1F4BB <= c <= 0x1F4FC || 0x1F579 <= c <= 0x1F5DC
        || c == 0x1F9ED {
        4
    } else if 0x2600 <= c <= 0x2603 || 0x26C4 <= c <= 0x26C8 || c == 0x2744 || c == 0x1F30A
        || 0x1F324 <= c <= 0x1F32C || 0x1F4A6 <= c <= 0x1F4A8 {
        5
    } else if c == 0x2618 || 0x1F331 <= c <= 0x1F335 || 0x1F33E <= c <= 0x1F343
        || c == 0x1F38B || c == 0x1F38D {
        6
    } else if c == 0x26EA || 0x1F303 <= c <= 0x1F309 || c == 0x1F30C
        || 0x1F3D7 <= c <= 0x1F3F0 || c == 0x1F54C || 0x1F5FC <= c <= 0x1F5FD {
        7
    } else if c == 0x2708 || 0x1F3CD <= c <= 0x1F3CE || 0x1F682 <= c <= 0x1F68E
        || 0x1F690 <= c <= 0x1F6A1 || c == 0x1F6A8 || c == 0x1F6B2
        || 0x1F6E9 <= c <= 0x1F6EC || 0x1F6F4 <= c <= 0x1F6F5 {
        8
    } else if c == 0x2693 || c == 0x26F5 || c == 0x26FD || c == 0x1F38C || c == 0x1F3C1
        || 0x1F3F3 <= c <= 0x1F3F4 || c == 0x1F4BA || c == 0x1F5FA || c == 0x1F5FF
        || 0x1F680 <= c <= 0x1F681 || c == 0x1F68F || 0x1F6A4 <= c <= 0x1F6A7
        || c == 0x1F6A9 || c == 0x1F6D1 || 0x1F6F0 <= c <= 0x1F6F3 || c == 0x1F6F8 {
        9
    } else {
        10
    }
}

/// The symbols of `group` differ from one another, and each begins with a
/// character of the group with the number `number`.
spec fn housed(group: Seq<Seq<char>>, number: int) -> bool {
    &&& group.no_duplicates()
    &&& forall|i: int| 0 <= i < group.len() ==> home(lead(#[trigger] group[i])) == number
}

/// Two texts that differ in their first character or in their length are
/// different texts.
spec fn apart(a: Seq<char>, b: Seq<char>) -> bool {
    lead(a) != lead(b) || a.len() != b.len()
}

/// The faces differ from one another and begin with characters of their own.
proof fn lemma_faces_housed()
    ensures
        housed(texts(FACES@), 0),
{
    reveal_strlit("😀"); reveal_strlit("😃"); reveal_strlit("😄"); reveal_strlit("😁");
    reveal_strlit("😆"); reveal_strlit("😅"); reveal_strlit("🤣"); reveal_strlit("😂");
    reveal_strlit("🙂"); reveal_strlit("🙃"); reveal_strlit("😉"); reveal_strlit("😊");
    reveal_strlit("😇"); reveal_strlit("🇧🇩"); reveal_strlit("😈"); reveal_strlit("🤩");
    reveal_strlit("✅"); reveal_strlit("🤖"); reveal_strlit("👨🏾‍💻"); reveal_strlit("🤯");
    reveal_strlit("😋"); reveal_strlit("😛"); reveal_strlit("😜"); reveal_strlit("🤪");
    reveal_strlit("😝"); reveal_strlit("🤑"); reveal_strlit("🤗"); reveal_strlit("🤭");
    reveal_strlit("🤫"); reveal_strlit("🤔"); reveal_strlit("🤐"); reveal_strlit("🤨");
    reveal_strlit("😐"); reveal_strlit("😑"); reveal_strlit("😶"); reveal_strlit("😏");
    reveal_strlit("😒"); reveal_strlit("🙄"); reveal_strlit("😬"); reveal_strlit("🤥");
    let group = texts(FACES@);
    assert forall|i: int, j: int| 0 <= i < j < group.len() implies group[i] != group[j] by {
        assert(apart(group[i], group[j]));
    }
}

/// The animals differ from one another and begin with characters of their own.
proof fn lemma_animals_housed()
    ensures
        housed(texts(ANIMALS@), 1),
{
    reveal_strlit("🐶"); reveal_strlit("🐱"); reveal_strlit("🐭"); reveal_strlit("🐹");
    reveal_strlit("🐰"); reveal_strlit("🦊"); reveal_strlit("🐻"); reveal_strlit("🐼");
    reveal_strlit("🐨"); reveal_strlit("🐯"); reveal_strlit("🦁"); reveal_strlit("🐮");
    reveal_strlit("🐷"); reveal_strlit("🐸"); reveal_strlit("🐵"); reveal_strlit("🙈");
    reveal_strlit("🙉"); reveal_strlit("🙊"); reveal_strlit("🐒"); reveal_strlit("🐔");
    reveal_strlit("🐧"); reveal_strlit("🐦"); reveal_strlit("🐤"); reveal_strlit("🐣");
    reveal_strlit("🐥"); reveal_strlit("🦆"); reveal_strlit("🦅"); reveal_strlit("🦉");
    reveal_strlit("🦇"); reveal_strlit("🐺"); reveal_strlit("🐗"); reveal_strlit("🐴");
    reveal_strlit("🦄"); reveal_strlit("🐝"); reveal_strlit("🐛"); reveal_strlit("🦋");
    reveal_strlit("🐌"); reveal_strlit("🐞"); reveal_strlit("🐜"); reveal_strlit("🦟");
    let group = texts(ANIMALS@);
    assert forall|i: int, j: int| 0 <= i < j < group.len() implies group[i] != group[j] by {
        assert(apart(group[i], group[j]));
    }
}

/// The food differ from one another and begin with characters of their own.
proof fn lemma_food_housed()
    ensures
        housed(texts(FOOD@), 2),
{
    reveal_strlit("🍎"); reveal_strlit("🍐"); reveal_strlit("🍊"); reveal_strlit("🍋");
    reveal_strlit("🍌"); reveal_strlit("🍉"); reveal_strlit("🍇"); reveal_strlit("🍓");
    reveal_strlit("🫐"); reveal_strlit("🍈"); reveal_strlit("🍒"); reveal_strlit("🍑");
    reveal_strlit("🥭"); reveal_strlit("🍍"); reveal_strlit("🥥"); reveal_strlit("🥝");
    reveal_strlit("🍅"); reveal_strlit("🍆"); reveal_strlit("🥑"); reveal_strlit("🥦");
    reveal_strlit("🥬"); reveal_strlit("🥒"); reveal_strlit("🌶️"); reveal_strlit("🫑");
    reveal_strlit("🌽"); reveal_strlit("🥕"); reveal_strlit("🫒"); reveal_strlit("🧄");
    reveal_strlit("🧅"); reveal_strlit("🥔"); reveal_strlit("🍞"); reveal_strlit("🥐");
    reveal_strlit("🥖"); reveal_strlit("🫓"); reveal_strlit("🥨"); reveal_strlit("🥯");
    reveal_strlit("🥞"); reveal_strlit("🧇"); reveal_strlit("🧀"); reveal_strlit("🍖");
    let group = texts(FOOD@);
    assert forall|i: int, j: int| 0 <= i < j < group.len() implies group[i] != group[j] by {
        assert(apart(group[i], group[j]));
    }
}

/// The sports and games differ from one another and begin with characters of their own.
proof fn lemma_activities_housed()
    ensures
        housed(texts(ACTIVITIES@), 3),
{
    reveal_strlit("⚽"); reveal_strlit("🏀"); reveal_strlit("🏈"); reveal_strlit("⚾");
    reveal_strlit("🥎"); reveal_strlit("🎾"); reveal_strlit("🏐"); reveal_strlit("🏉");
    reveal_strlit("🥏"); reveal_strlit("🎱"); reveal_strlit("🪀"); reveal_strlit("🏓");
    reveal_strlit("🏸"); reveal_strlit("🏒"); reveal_strlit("🏑"); reveal_strlit("🥍");
    reveal_strlit("🏏"); reveal_strlit("🪃"); reveal_strlit("🥅"); reveal_strlit("⛳");
    reveal_strlit("🪁"); reveal_strlit("🏹"); reveal_strlit("🎣"); reveal_strlit("🤿");
    reveal_strlit("🥊"); reveal_strlit("🥋"); reveal_strlit("🎽"); reveal_strlit("🛹");
    reveal_strlit("🛷"); reveal_strlit("⛸️");
    let group = texts(ACTIVITIES@);
    assert forall|i: int, j: int| 0 <= i < j < group.len() implies group[i] != group[j] by {
        assert(apart(group[i], group[j]));
    }
}

/// The devices differ from one another and begin with characters of their own.
proof fn lemma_objects_housed()
    ensures
        housed(texts(OBJECTS@), 4),
{
    reveal_strlit("⌚"); reveal_strlit("📱"); reveal_strlit("📲"); reveal_strlit("💻");
    reveal_strlit("⌨️"); reveal_strlit("🖥️"); reveal_strlit("🖨️"); reveal_strlit("🖱️");
    reveal_strlit("🖲️"); reveal_strlit("🕹️"); reveal_strlit("🗜️"); reveal_strlit("💽");
    reveal_strlit("💾"); reveal_strlit("💿"); reveal_strlit("📀"); reveal_strlit("📼");
    reveal_strlit("📷"); reveal_strlit("📸"); reveal_strlit("📹"); reveal_strlit("🎥");
    reveal_strlit("📞"); reveal_strlit("☎️"); reveal_strlit("📟"); reveal_strlit("📠");
    reveal_strlit("📺"); reveal_strlit("📻"); reveal_strlit("🎙️"); reveal_strlit("🎚️");
    reveal_strlit("🎛️"); reveal_strlit("🧭");
    let group = texts(OBJECTS@);
    assert forall|i: int, j: int| 0 <= i < j < group.len() implies group[i] != group[j] by {
        assert(apart(group[i], group[j]));
    }
}

/// The weather symbols differ from one another and begin with characters of their own.
proof fn lemma_weather_housed()
    ensures
        housed(texts(WEATHER@), 5),
{
    reveal_strlit("☀️"); reveal_strlit("🌤️"); reveal_strlit("⛅"); reveal_strlit("🌥️");
    reveal_strlit("☁️"); reveal_strlit("🌦️"); reveal_strlit("🌧️"); reveal_strlit("⛈️");
    reveal_strlit("🌩️"); reveal_strlit("🌨️"); reveal_strlit("❄️"); reveal_strlit("☃️");
    reveal_strlit("⛄"); reveal_strlit("🌬️"); reveal_strlit("💨"); reveal_strlit("🌪️");
    reveal_strlit("🌫️"); reveal_strlit("🌊"); reveal_strlit("💧"); reveal_strlit("💦");
    let group = texts(WEATHER@);
    assert forall|i: int, j: int| 0 <= i < j < group.len() implies group[i] != group[j] by {
        assert(apart(group[i], group[j]));
    }
}

/// The plants differ from one another and begin with characters of their own.
proof fn lemma_nature_housed()
    ensures
        housed(texts(NATURE@), 6),
{
    reveal_strlit("🌱"); reveal_strlit("🌿"); reveal_strlit("☘️"); reveal_strlit("🍀");
    reveal_strlit("🎍"); reveal_strlit("🎋"); reveal_strlit("🍃"); reveal_strlit("🍂");
    reveal_strlit("🍁"); reveal_strlit("🌾"); reveal_strlit("🌵"); reveal_strlit("🌴");
    reveal_strlit("🌳"); reveal_strlit("🌲");
    let group = texts(NATURE@);
    assert forall|i: int, j: int| 0 <= i < j < group.len() implies group[i] != group[j] by {
        assert(apart(group[i], group[j]));
    }
}

/// The buildings and places differ from one another and begin with characters of their own.
proof fn lemma_places_housed()
    ensures
        housed(texts(PLACES@), 7),
{
    reveal_strlit("🏠"); reveal_strlit("🏡"); reveal_strlit("🏢"); reveal_strlit("🏣");
    reveal_strlit("🏤"); reveal_strlit("🏥"); reveal_strlit("🏦"); reveal_strlit("🏨");
    reveal_strlit("🏩"); reveal_strlit("🏪"); reveal_strlit("🏫"); reveal_strlit("🏬");
    reveal_strlit("🏭"); reveal_strlit("🏯"); reveal_strlit("🏰"); reveal_strlit("🏗️");
    reveal_strlit("🏘️"); reveal_strlit("🏚️"); reveal_strlit("🌇"); reveal_strlit("🌆");
    reveal_strlit("🌃"); reveal_strlit("🌉"); reveal_strlit("🌌"); reveal_strlit("🗼");
    reveal_strlit("🗽"); reveal_strlit("⛪"); reveal_strlit("🕌");
    let group = texts(PLACES@);
    assert forall|i: int, j: int| 0 <= i < j < group.len() implies group[i] != group[j] by {
        assert(apart(group[i], group[j]));
    }
}

/// The vehicles differ from one another and begin with characters of their own.
proof fn lemma_transportation_housed()
    ensures
        housed(texts(TRANSPORTATION@), 8),
{
    reveal_strlit("🚗"); reveal_strlit("🚕"); reveal_strlit("🚙"); reveal_strlit("🚌");
    reveal_strlit("🚎"); reveal_strlit("🏎️"); reveal_strlit("🚓"); reveal_strlit("🚑");
    reveal_strlit("🚒"); reveal_strlit("🚐"); reveal_strlit("🚚"); reveal_strlit("🚛");
    reveal_strlit("🚜"); reveal_strlit("🚲"); reveal_strlit("🛴"); reveal_strlit("🛵");
    reveal_strlit("🏍️"); reveal_strlit("🚨"); reveal_strlit("🚔"); reveal_strlit("🚍");
    reveal_strlit("🚘"); reveal_strlit("🚖"); reveal_strlit("🚡"); reveal_strlit("🚠");
    reveal_strlit("🚟"); reveal_strlit("🚃"); reveal_strlit("🚋"); reveal_strlit("🚝");
    reveal_strlit("🚄"); reveal_strlit("🚅"); reveal_strlit("🚈"); reveal_strlit("🚂");
    reveal_strlit("🚆"); reveal_strlit("🚇"); reveal_strlit("🚊"); reveal_strlit("✈️");
    reveal_strlit("🛩️"); reveal_strlit("🛫"); reveal_strlit("🛬");
    let group = texts(TRANSPORTATION@);
    assert forall|i: int, j: int| 0 <= i < j < group.len() implies group[i] != group[j] by {
        assert(apart(group[i], group[j]));
    }
}

/// The craft, signs and flags differ from one another and begin with characters of their own.
proof fn lemma_technology_housed()
    ensures
        housed(texts(TECHNOLOGY@), 9),
{
    reveal_strlit("🛰️"); reveal_strlit("🚀"); reveal_strlit("🛸"); reveal_strlit("💺");
    reveal_strlit("🚁"); reveal_strlit("🚤"); reveal_strlit("⛵"); reveal_strlit("🛳️");
    reveal_strlit("⚓"); reveal_strlit("⛽"); reveal_strlit("🚧"); reveal_strlit("🚦");
    reveal_strlit("🚥"); reveal_strlit("🛑"); reveal_strlit("🚏"); reveal_strlit("🗺️");
    reveal_strlit("🗿"); reveal_strlit("🏴‍☠️"); reveal_strlit("🏳️‍🌈"); reveal_strlit("🏳️‍⚧️");
    reveal_strlit("🏁"); reveal_strlit("🚩"); reveal_strlit("🎌"); reveal_strlit("🏳️");
    let group = texts(TECHNOLOGY@);
    assert forall|i: int, j: int| 0 <= i < j < group.len() implies group[i] != group[j] by {
        assert(apart(group[i], group[j]));
    }
}

/// The catalog has `CATALOG_LEN` symbols, and none of them occurs twice.
pub proof fn lemma_catalog_distinct()
    ensures
        catalog().len() == CATALOG_LEN,
        catalog().no_duplicates(),
{
    lemma_faces_housed();
    lemma_animals_housed();
    lemma_food_housed();
    lemma_activities_housed();
    lemma_objects_housed();
    lemma_weather_housed();
    lemma_nature_housed();
    lemma_places_housed();
    lemma_transportation_housed();
    lemma_technology_housed();
    assert forall|i: int, j: int| 0 <= i < j < CATALOG_LEN implies catalog()[i] != catalog()[j] by {
        assert(home(lead(catalog()[i])) <= home(lead(catalog()[j])));
    }
}

} // verus!
