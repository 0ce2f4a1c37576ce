//! Weather widget: the wttr.in report it reads, the emoji it picks, and
//! the labels it shows.

use vstd::prelude::*;
use crate::text::{
    chars_of, concat2, dec_i64, parse_i32, parse_i32_spec, push_i64, str_eq, to_owned_string,
};

verus! {

/// One description of the current weather.
#[derive(Debug, Clone)]
pub struct WttrDesc {
    pub value: String,
}

/// The current conditions in a wttr.in report.
#[derive(Debug, Clone)]
pub struct WttrCurrent {
    pub temp_c: String,
    pub weather_code: String,
    pub weather_desc: Vec<WttrDesc>,
}

/// The part of a wttr.in JSON report (`?format=j1`) the widget reads.
#[derive(Debug, Clone)]
pub struct WttrResponse {
    pub current_condition: Vec<WttrCurrent>,
}

/// What the widget shows.
#[derive(Debug, Clone)]
pub struct WeatherSnapshot {
    pub city: String,
    pub temp_c: i32,
    pub desc: String,
    pub emoji: &'static str,
}

pub open spec fn code_in(code: Seq<char>, codes: Seq<Seq<char>>) -> bool {
    exists|i: int| 0 <= i < codes.len() && codes[i] == code
}

pub open spec fn rain_codes() -> Seq<Seq<char>> {
    seq![
        "176"@, "263"@, "266"@, "281"@, "284"@, "293"@, "296"@, "299"@, "302"@, "305"@, "308"@,
        "311"@, "314"@, "317"@, "350"@, "353"@, "356"@, "359"@, "362"@, "365"@, "368"@, "371"@,
        "374"@, "377"@, "386"@, "389"@, "392"@, "395"@,
    ]
}

pub open spec fn snow_codes() -> Seq<Seq<char>> {
    seq![
        "179"@, "182"@, "185"@, "227"@, "230"@, "320"@, "323"@, "326"@, "329"@, "332"@, "335"@,
        "338"@,
    ]
}

/// The emoji for a wttr.in weather code, bucketed into the widget's four:
/// ☀️ for clear weather (113), 🌧️ for the rain, drizzle, shower and
/// thunder codes, ❄️ for the snow, sleet and ice codes, and ⛅ for every
/// other code, the cloudy, overcast and fog codes and unknown codes
/// included.
pub open spec fn emoji_of(code: Seq<char>) -> Seq<char> {
    if code == "113"@ {
        "☀️"@
    } else if code_in(code, rain_codes()) || code == "200"@ {
        "🌧️"@
    } else if code_in(code, snow_codes()) {
        "❄️"@
    } else {
        "⛅"@
    }
}

/// The three characters of a code as one number, to tell codes apart.
spec fn code_key(s: Seq<char>) -> int {
    (s[0] as int) * 65536 + (s[1] as int) * 256 + (s[2] as int)
}

/// Every wttr.in rain, drizzle, shower and thunder code shows the rain
/// emoji.
pub proof fn lemma_rain_codes_show_rain(code: Seq<char>)
    requires
        code == "176"@ || code == "263"@ || code == "266"@ || code == "281"@ || code == "284"@ || code == "293"@ || code == "296"@ || code == "299"@ || code == "302"@ || code == "305"@ || code == "308"@ || code == "311"@ || code == "314"@ || code == "317"@ || code == "350"@ || code == "353"@ || code == "356"@ || code == "359"@ || code == "362"@ || code == "365"@ || code == "368"@ || code == "371"@ || code == "374"@ || code == "377"@ || code == "386"@ || code == "389"@ || code == "392"@ || code == "395"@ || code == "200"@,
    ensures
        emoji_of(code) == "🌧️"@,
{
    reveal_strlit("176");
    reveal_strlit("263");
    reveal_strlit("266");
    reveal_strlit("281");
    reveal_strlit("284");
    reveal_strlit("293");
    reveal_strlit("296");
    reveal_strlit("299");
    reveal_strlit("302");
    reveal_strlit("305");
    reveal_strlit("308");
    reveal_strlit("311");
    reveal_strlit("314");
    reveal_strlit("317");
    reveal_strlit("350");
    reveal_strlit("353");
    reveal_strlit("356");
    reveal_strlit("359");
    reveal_strlit("362");
    reveal_strlit("365");
    reveal_strlit("368");
    reveal_strlit("371");
    reveal_strlit("374");
    reveal_strlit("377");
    reveal_strlit("386");
    reveal_strlit("389");
    reveal_strlit("392");
    reveal_strlit("395");
    reveal_strlit("200");
    reveal_strlit("113");
    assert(code_key(code) != code_key("113"@));
    let rs = rain_codes();
    if code == "176"@ {
        assert(rs[0] == code);
    }
    if code == "263"@ {
        assert(rs[1] == code);
    }
    if code == "266"@ {
        assert(rs[2] == code);
    }
    if code == "281"@ {
        assert(rs[3] == code);
    }
    if code == "284"@ {
        assert(rs[4] == code);
    }
    if code == "293"@ {
        assert(rs[5] == code);
    }
    if code == "296"@ {
        assert(rs[6] == code);
    }
    if code == "299"@ {
        assert(rs[7] == code);
    }
    if code == "302"@ {
        assert(rs[8] == code);
    }
    if code == "305"@ {
        assert(rs[9] == code);
    }
    if code == "308"@ {
        assert(rs[10] == code);
    }
    if code == "311"@ {
        assert(rs[11] == code);
    }
    if code == "314"@ {
        assert(rs[12] == code);
    }
    if code == "317"@ {
        assert(rs[13] == code);
    }
    if code == "350"@ {
        assert(rs[14] == code);
    }
    if code == "353"@ {
        assert(rs[15] == code);
    }
    if code == "356"@ {
        assert(rs[16] == code);
    }
    if code == "359"@ {
        assert(rs[17] == code);
    }
    if code == "362"@ {
        assert(rs[18] == code);
    }
    if code == "365"@ {
        assert(rs[19] == code);
    }
    if code == "368"@ {
        assert(rs[20] == code);
    }
    if code == "371"@ {
        assert(rs[21] == code);
    }
    if code == "374"@ {
        assert(rs[22] == code);
    }
    if code == "377"@ {
        assert(rs[23] == code);
    }
    if code == "386"@ {
        assert(rs[24] == code);
    }
    if code == "389"@ {
        assert(rs[25] == code);
    }
    if code == "392"@ {
        assert(rs[26] == code);
    }
    if code == "395"@ {
        assert(rs[27] == code);
    }
}

/// Every wttr.in snow, sleet and ice code shows the snow emoji.
pub proof fn lemma_snow_codes_show_snow(code: Seq<char>)
    requires
        code == "179"@ || code == "182"@ || code == "185"@ || code == "227"@ || code == "230"@ || code == "320"@ || code == "323"@ || code == "326"@ || code == "329"@ || code == "332"@ || code == "335"@ || code == "338"@,
    ensures
        emoji_of(code) == "❄️"@,
{
    reveal_strlit("179");
    reveal_strlit("182");
    reveal_strlit("185");
    reveal_strlit("227");
    reveal_strlit("230");
    reveal_strlit("320");
    reveal_strlit("323");
    reveal_strlit("326");
    reveal_strlit("329");
    reveal_strlit("332");
    reveal_strlit("335");
    reveal_strlit("338");
    reveal_strlit("176");
    reveal_strlit("263");
    reveal_strlit("266");
    reveal_strlit("281");
    reveal_strlit("284");
    reveal_strlit("293");
    reveal_strlit("296");
    reveal_strlit("299");
    reveal_strlit("302");
    reveal_strlit("305");
    reveal_strlit("308");
    reveal_strlit("311");
    reveal_strlit("314");
    reveal_strlit("317");
    reveal_strlit("350");
    reveal_strlit("353");
    reveal_strlit("356");
    reveal_strlit("359");
    reveal_strlit("362");
    reveal_strlit("365");
    reveal_strlit("368");
    reveal_strlit("371");
    reveal_strlit("374");
    reveal_strlit("377");
    reveal_strlit("386");
    reveal_strlit("389");
    reveal_strlit("392");
    reveal_strlit("395");
    reveal_strlit("113");
    reveal_strlit("200");
    assert(code_key(code) != code_key("113"@));
    assert(code_key(code) != code_key("200"@));
    let ss = snow_codes();
    if code == "179"@ {
        assert(ss[0] == code);
    }
    if code == "182"@ {
        assert(ss[1] == code);
    }
    if code == "185"@ {
        assert(ss[2] == code);
    }
    if code == "227"@ {
        assert(ss[3] == code);
    }
    if code == "230"@ {
        assert(ss[4] == code);
    }
    if code == "320"@ {
        assert(ss[5] == code);
    }
    if code == "323"@ {
        assert(ss[6] == code);
    }
    if code == "326"@ {
        assert(ss[7] == code);
    }
    if code == "329"@ {
        assert(ss[8] == code);
    }
    if code == "332"@ {
        assert(ss[9] == code);
    }
    if code == "335"@ {
        assert(ss[10] == code);
    }
    if code == "338"@ {
        assert(ss[11] == code);
    }
    let rs = rain_codes();
    assert forall|i: int| 0 <= i < rs.len() implies rs[i] != code by {
        assert(code_key(rs[i]) != code_key(code));
    }
}

/// The clear-sky code shows the sun, and every code that is neither clear,
/// nor one of the rain, thunder and snow codes listed above, shows the
/// cloud: cloudy, overcast, fog and unknown codes alike.
pub proof fn lemma_other_codes_show_cloud(code: Seq<char>)
    ensures
        emoji_of("113"@) == "☀️"@,
        code != "113"@ && code != "200"@ && code != "176"@ && code != "263"@ && code != "266"@ && code != "281"@ && code != "284"@ && code != "293"@ && code != "296"@ && code != "299"@ && code != "302"@ && code != "305"@ && code != "308"@ && code != "311"@ && code != "314"@ && code != "317"@ && code != "350"@ && code != "353"@ && code != "356"@ && code != "359"@ && code != "362"@ && code != "365"@ && code != "368"@ && code != "371"@ && code != "374"@ && code != "377"@ && code != "386"@ && code != "389"@ && code != "392"@ && code != "395"@ && code != "179"@ && code != "182"@ && code != "185"@ && code != "227"@ && code != "230"@ && code != "320"@ && code != "323"@ && code != "326"@ && code != "329"@ && code != "332"@ && code != "335"@ && code != "338"@ ==> emoji_of(code) == "⛅"@,
{
    let rs = rain_codes();
    let ss = snow_codes();
    if code != "113"@ && code != "200"@ && code != "176"@ && code != "263"@ && code != "266"@ && code != "281"@ && code != "284"@ && code != "293"@ && code != "296"@ && code != "299"@ && code != "302"@ && code != "305"@ && code != "308"@ && code != "311"@ && code != "314"@ && code != "317"@ && code != "350"@ && code != "353"@ && code != "356"@ && code != "359"@ && code != "362"@ && code != "365"@ && code != "368"@ && code != "371"@ && code != "374"@ && code != "377"@ && code != "386"@ && code != "389"@ && code != "392"@ && code != "395"@ && code != "179"@ && code != "182"@ && code != "185"@ && code != "227"@ && code != "230"@ && code != "320"@ && code != "323"@ && code != "326"@ && code != "329"@ && code != "332"@ && code != "335"@ && code != "338"@ {
        assert forall|i: int| 0 <= i < rs.len() implies rs[i] != code by {
            assert(rs[i] == "176"@ || rs[i] == "263"@ || rs[i] == "266"@ || rs[i] == "281"@ || rs[i] == "284"@ || rs[i] == "293"@ || rs[i] == "296"@ || rs[i] == "299"@ || rs[i] == "302"@ || rs[i] == "305"@ || rs[i] == "308"@ || rs[i] == "311"@ || rs[i] == "314"@ || rs[i] == "317"@ || rs[i] == "350"@ || rs[i] == "353"@ || rs[i] == "356"@ || rs[i] == "359"@ || rs[i] == "362"@ || rs[i] == "365"@ || rs[i] == "368"@ || rs[i] == "371"@ || rs[i] == "374"@ || rs[i] == "377"@ || rs[i] == "386"@ || rs[i] == "389"@ || rs[i] == "392"@ || rs[i] == "395"@);
        }
        assert forall|i: int| 0 <= i < ss.len() implies ss[i] != code by {
            assert(ss[i] == "179"@ || ss[i] == "182"@ || ss[i] == "185"@ || ss[i] == "227"@ || ss[i] == "230"@ || ss[i] == "320"@ || ss[i] == "323"@ || ss[i] == "326"@ || ss[i] == "329"@ || ss[i] == "332"@ || ss[i] == "335"@ || ss[i] == "338"@);
        }
    }
}

fn code_in_list(code: &str, list: &[&str]) -> (res: bool)
    ensures
        res == code_in(code@, list@.map_values(|s: &str| s@)),
{
    let mut i: usize = 0;
    while i < list.len()
        invariant
            i <= list@.len(),
            forall|j: int| 0 <= j < i ==> list@[j]@ != code@,
        decreases list@.len() - i,
    {
        if str_eq(list[i], code) {
            proof {
                assert(list@.map_values(|s: &str| s@)[i as int] == code@);
            }
            return true;
        }
        i = i + 1;
    }
    proof {
        let m = list@.map_values(|s: &str| s@);
        if code_in(code@, m) {
            let j = choose|j: int| 0 <= j < m.len() && m[j] == code@;
            assert(m[j] == list@[j]@);
        }
    }
    false
}

/// Maps a wttr.in weather code to one of the widget's four emoji (the
/// description is not consulted).
pub fn pick_emoji(code: &str, _desc: &str) -> (res: &'static str)
    ensures
        res@ == emoji_of(code@),
{
    if str_eq(code, "113") {
        return "☀️";
    }
    let rain: [&str; 28] = [
        "176", "263", "266", "281", "284", "293", "296", "299", "302", "305", "308", "311", "314",
        "317", "350", "353", "356", "359", "362", "365", "368", "371", "374", "377", "386", "389",
        "392", "395",
    ];
    proof {
        assert(rain@.map_values(|s: &str| s@) =~= rain_codes());
    }
    if code_in_list(code, &rain) || str_eq(code, "200") {
        return "🌧️";
    }
    let snow: [&str; 12] = ["179", "182", "185", "227", "230", "320", "323", "326", "329", "332", "335", "338"];
    proof {
        assert(snow@.map_values(|s: &str| s@) =~= snow_codes());
    }
    if code_in_list(code, &snow) {
        return "❄️";
    }
    "⛅"
}

/// The snapshot for `city` from a report, or the error message: the first
/// current condition is used ("no current_condition in response" without
/// one), its temperature must be an `i32` ("temp_C not a number"), its
/// description is the first one given (or "Unknown").
pub open spec fn snapshot_of(city: Seq<char>, resp: WttrResponse) -> Result<(Seq<char>, i32, Seq<char>, Seq<char>), Seq<char>> {
    if resp.current_condition@.len() == 0 {
        Err("no current_condition in response"@)
    } else {
        let cur = resp.current_condition@[0];
        match parse_i32_spec(cur.temp_c@) {
            None => Err("temp_C not a number"@),
            Some(t) => {
                let desc = if cur.weather_desc@.len() > 0 {
                    cur.weather_desc@[0].value@
                } else {
                    "Unknown"@
                };
                Ok((city, t, desc, emoji_of(cur.weather_code@)))
            },
        }
    }
}

/// The view of a snapshot result.
pub open spec fn snapshot_view(r: Result<WeatherSnapshot, String>) -> Result<(Seq<char>, i32, Seq<char>, Seq<char>), Seq<char>> {
    match r {
        Ok(s) => Ok((s.city@, s.temp_c, s.desc@, s.emoji@)),
        Err(m) => Err(m@),
    }
}

/// Builds the widget's snapshot from a parsed wttr.in report.
pub fn snapshot_from(city: &str, resp: &WttrResponse) -> (res: Result<WeatherSnapshot, String>)
    ensures
        snapshot_view(res) == snapshot_of(city@, *resp),
{
    if resp.current_condition.len() == 0 {
        return Err(to_owned_string("no current_condition in response"));
    }
    let cur = &resp.current_condition[0];
    let tc = chars_of(cur.temp_c.as_str());
    let temp_c = match parse_i32(tc.as_slice()) {
        Some(t) => t,
        None => {
            return Err(to_owned_string("temp_C not a number"));
        },
    };
    let desc = if cur.weather_desc.len() > 0 {
        cur.weather_desc[0].value.clone()
    } else {
        to_owned_string("Unknown")
    };
    let emoji = pick_emoji(cur.weather_code.as_str(), desc.as_str());
    Ok(WeatherSnapshot { city: to_owned_string(city), temp_c, desc, emoji })
}


/// The city the widget shows until configured otherwise.
pub open spec fn default_city() -> Seq<char> {
    "Paris"@
}

/// The city the widget shows.
pub fn default_city_name() -> (res: &'static str)
    ensures
        res@ == default_city(),
{
    "Paris"
}

/// The report address for `city`: `https://wttr.in/{city}?format=j1`.
pub fn wttr_url(city: &str) -> (res: String)
    ensures
        res@ == "https://wttr.in/"@ + city@ + "?format=j1"@,
{
    let mut url = concat2("https://wttr.in/", city);
    url.append("?format=j1");
    url
}

/// The three labels of the widget: the city, the temperature and the
/// condition.
#[derive(Debug)]
pub struct WidgetLabels {
    /// The new city text; `None` leaves the label as it is.
    pub city: Option<String>,
    pub temp: String,
    pub cond: String,
}

/// The labels after a refresh: on success the snapshot's city,
/// `{temp}°C` and `{emoji} {description}`; on failure the city is kept,
/// with `--°` and `offline`.
pub fn widget_labels(fetched: &Result<WeatherSnapshot, String>) -> (res: WidgetLabels)
    ensures
        match fetched {
            Ok(s) => (res.city matches Some(c) && c@ == s.city@) && res.temp@ == dec_i64(s.temp_c as i64) + "\u{B0}C"@
                && res.cond@ == s.emoji@ + " "@ + s.desc@,
            Err(_) => res.city is None && res.temp@ == "--\u{B0}"@ && res.cond@ == "offline"@,
        },
{
    match fetched {
        Ok(s) => {
            let mut temp = String::new();
            push_i64(&mut temp, s.temp_c as i64);
            temp.append("\u{B0}C");
            let mut cond = concat2(s.emoji, " ");
            cond.append(s.desc.as_str());
            WidgetLabels { city: Some(s.city.clone()), temp, cond }
        },
        Err(_) => WidgetLabels {
            city: None,
            temp: to_owned_string("--\u{B0}"),
            cond: to_owned_string("offline"),
        },
    }
}

} // verus!
