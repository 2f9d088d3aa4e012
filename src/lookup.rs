use vstd::prelude::*;
use vstd::hash_map::StringHashMap;

use crate::text::{chars_of, char_index_from, slice_chars, split_chars, split_on, string_of};

verus! {

broadcast use vstd::std_specs::hash::group_hash_axioms;

/// The counties of the reference table: region code, three-digit canonical
/// code and display name.
pub const COUNTY_ROWS: [(&'static str, &'static str, &'static str); 39] = [
    ("01", "001", "Adams County"),
    ("02", "003", "Asotin County"),
    ("03", "005", "Benton County"),
    ("04", "007", "Chelan County"),
    ("05", "009", "Clallam County"),
    ("06", "011", "Clark County"),
    ("07", "013", "Columbia County"),
    ("08", "015", "Cowlitz County"),
    ("09", "017", "Douglas County"),
    ("10", "019", "Ferry County"),
    ("11", "021", "Franklin County"),
    ("12", "023", "Garfield County"),
    ("13", "025", "Grant County"),
    ("14", "027", "Grays Harbor County"),
    ("15", "029", "Island County"),
    ("16", "031", "Jefferson County"),
    ("17", "033", "King County"),
    ("18", "035", "Kitsap County"),
    ("19", "037", "Kittitas County"),
    ("20", "039", "Klickitat County"),
    ("21", "041", "Lewis County"),
    ("22", "043", "Lincoln County"),
    ("23", "045", "Mason County"),
    ("24", "047", "Okanogan County"),
    ("25", "049", "Pacific County"),
    ("26", "051", "Pend Oreille County"),
    ("27", "053", "Pierce County"),
    ("28", "055", "San Juan County"),
    ("29", "057", "Skagit County"),
    ("30", "059", "Skamania County"),
    ("31", "061", "Snohomish County"),
    ("32", "063", "Spokane County"),
    ("33", "065", "Stevens County"),
    ("34", "067", "Thurston County"),
    ("35", "069", "Wahkiakum County"),
    ("36", "071", "Walla Walla County"),
    ("37", "073", "Whatcom County"),
    ("38", "075", "Whitman County"),
    ("39", "077", "Yakima County"),
];

/// The postal codes of the reference table, each as `code:region:division`.
pub const ZIP_ENTRIES: [&'static str; 263] = [
    "98602:20:A", "98605:20:A", "98068:19:A", "98613:20:A", "98617:20:A",
    "98619:20:A", "98620:20:A", "98622:20:A", "98623:20:A", "98628:20:A",
    "98635:20:A", "98650:20:A", "98656:20:A", "98670:20:A", "98672:20:A",
    "98673:20:A", "98801:04:B", "98802:09:B", "98807:04:B", "98811:04:B",
    "98812:24:B", "98813:09:B", "98814:24:B", "98815:04:B", "98816:04:B",
    "98817:04:B", "98819:24:B", "98821:04:B", "98822:04:B", "98823:13:B",
    "98824:13:B", "98826:04:B", "98827:24:B", "98828:04:B", "98829:24:B",
    "98830:09:B", "98831:04:B", "98832:13:B", "98833:24:B", "98834:24:B",
    "98836:04:B", "98837:13:B", "98840:24:B", "98841:24:B", "98843:09:B",
    "98844:24:B", "98845:09:B", "98846:24:B", "98847:04:B", "98848:13:B",
    "98849:24:B", "98850:09:B", "98851:13:B", "98852:04:B", "98853:13:B",
    "98855:24:B", "98856:24:B", "98857:13:B", "98858:09:B", "98859:24:B",
    "98860:13:B", "98862:24:B", "98901:39:A", "98902:39:A", "98903:39:A",
    "98904:39:A", "98907:39:A", "98908:39:A", "98909:39:A", "98920:39:A",
    "98921:39:A", "98922:19:A", "98923:39:A", "98925:19:A", "98926:19:A",
    "98930:39:A", "98932:39:A", "98933:39:A", "98934:19:A", "98935:39:A",
    "98936:39:A", "98937:39:A", "98938:39:A", "98939:39:A", "98940:19:A",
    "98941:19:A", "98942:39:A", "98943:19:A", "98944:39:A", "98946:19:A",
    "98947:39:A", "98948:39:A", "98950:19:A", "98951:39:A", "98952:39:A",
    "98953:39:A", "99001:32:B", "99003:32:B", "99004:32:B", "99005:32:B",
    "99006:32:B", "99008:22:B", "99009:32:B", "99011:32:B", "99012:32:B",
    "99013:33:B", "99014:32:B", "99016:32:B", "99017:38:B", "99018:32:B",
    "99019:32:B", "99020:32:B", "99021:32:B", "99022:32:B", "99023:32:B",
    "99025:32:B", "99026:32:B", "99027:32:B", "99029:22:B", "99030:32:B",
    "99031:32:B", "99032:22:B", "99033:38:B", "99034:33:B", "99036:32:B",
    "99037:32:B", "99039:32:B", "99040:33:B", "99101:33:B", "99102:38:B",
    "99103:22:B", "99104:38:B", "99105:01:B", "99107:10:B", "99109:33:B",
    "99110:33:B", "99111:38:B", "99113:38:B", "99114:33:B", "99115:13:B",
    "99116:24:B", "99117:22:B", "99118:10:B", "99119:26:B", "99121:10:B",
    "99122:22:B", "99123:13:B", "99124:24:B", "99125:38:B", "99126:33:B",
    "99128:38:B", "99129:33:B", "99130:38:B", "99131:33:B", "99133:13:B",
    "99134:22:B", "99135:13:B", "99136:38:B", "99137:33:B", "99138:10:B",
    "99139:26:B", "99140:10:B", "99141:33:B", "99143:38:B", "99144:22:B",
    "99146:10:B", "99147:22:B", "99148:33:B", "99149:38:B", "99150:10:B",
    "99151:33:B", "99152:26:B", "99153:26:B", "99154:22:B", "99155:24:B",
    "99156:26:B", "99157:33:B", "99158:38:B", "99159:22:B", "99160:10:B",
    "99161:38:B", "99163:38:B", "99164:38:B", "99166:10:B", "99167:33:B",
    "99169:01:B", "99170:32:B", "99171:38:B", "99173:33:B", "99174:38:B",
    "99176:38:B", "99179:38:B", "99180:26:B", "99181:33:B", "99185:22:B",
    "99201:32:B", "99202:32:B", "99203:32:B", "99204:32:B", "99205:32:B",
    "99206:32:B", "99207:32:B", "99208:32:B", "99209:32:B", "99210:32:B",
    "99211:32:B", "99212:32:B", "99213:32:B", "99214:32:B", "99215:32:B",
    "99216:32:B", "99217:32:B", "99218:32:B", "99219:32:B", "99220:32:B",
    "99223:32:B", "99224:32:B", "99228:32:B", "99251:32:B", "99252:32:B",
    "99254:32:B", "99256:32:B", "99258:32:B", "99260:32:B", "99301:11:A",
    "99302:11:A", "99320:03:A", "99321:13:B", "99322:20:A", "99323:36:A",
    "99324:36:A", "99326:11:A", "99328:07:B", "99329:36:A", "99330:11:A",
    "99333:38:B", "99335:11:A", "99336:03:A", "99337:03:A", "99338:03:A",
    "99341:01:B", "99343:11:A", "99344:01:A", "99345:03:A", "99346:03:A",
    "99347:12:B", "99348:36:A", "99349:13:B", "99350:03:A", "99352:03:A",
    "99353:03:A", "99354:03:A", "99356:20:A", "99357:13:B", "99359:07:B",
    "99360:36:A", "99361:36:A", "99362:36:A", "99363:36:A", "99371:01:B",
    "99401:02:B", "99402:02:B", "99403:02:B",
];

/// What the reference table holds for one postal code.
#[derive(Debug)]
pub struct ZipCountyInfo {
    /// Two-digit region code.
    pub county_code: String,
    pub division: String,
    /// Three-digit canonical code of the region.
    pub fips_code: String,
    pub county_name: String,
}

/// The text of each field of a `ZipCountyInfo`.
pub struct ZipInfoView {
    pub county_code: Seq<char>,
    pub division: Seq<char>,
    pub fips_code: Seq<char>,
    pub county_name: Seq<char>,
}

impl View for ZipCountyInfo {
    type V = ZipInfoView;

    open spec fn view(&self) -> ZipInfoView {
        ZipInfoView {
            county_code: self.county_code@,
            division: self.division@,
            fips_code: self.fips_code@,
            county_name: self.county_name@,
        }
    }
}

/// The reference lookup table: five-character postal code to its entry.
pub struct ZipCountyMap {
    entries: StringHashMap<ZipCountyInfo>,
}

impl View for ZipCountyMap {
    type V = Map<Seq<char>, ZipInfoView>;

    closed spec fn view(&self) -> Map<Seq<char>, ZipInfoView> {
        self.entries@.map_values(|i: ZipCountyInfo| i@)
    }
}

impl ZipCountyMap {
    pub fn new() -> (r: Self)
        ensures
            r@ == Map::<Seq<char>, ZipInfoView>::empty(),
    {
        let r = ZipCountyMap { entries: StringHashMap::new() };
        assert(r@ =~= Map::<Seq<char>, ZipInfoView>::empty());
        r
    }

    /// Sets the entry of `zip`, replacing any earlier one.
    pub fn insert(&mut self, zip: String, info: ZipCountyInfo)
        ensures
            final(self)@ == old(self)@.insert(zip@, info@),
    {
        self.entries.insert(zip, info);
        assert(self@ =~= old(self)@.insert(zip@, info@));
    }

    /// How many postal codes the table holds.
    pub fn len(&self) -> (r: usize)
        ensures
            r == self@.len(),
    {
        assert(self@.dom() =~= self.entries@.dom());
        self.entries.len()
    }

    /// The entry of `zip`, if the table has one.
    pub fn get(&self, zip: &str) -> (r: Option<&ZipCountyInfo>)
        ensures
            match r {
                Some(i) => self@.contains_key(zip@) && i@ == self@[zip@],
                None => !self@.contains_key(zip@),
            },
    {
        self.entries.get(zip)
    }
}

/// The five-character form of a postal code: the part before the first
/// hyphen when there is one, else its first five characters, else the whole
/// code when it is shorter.
pub open spec fn zip5_of(zip: Seq<char>) -> Seq<char> {
    let h = char_index_from(zip, '-', 0);
    if h < zip.len() {
        zip.take(h)
    } else if zip.len() >= 5 {
        zip.take(5)
    } else {
        zip
    }
}

/// The five-character form of a postal code (`98115-1234` gives `98115`).
pub fn normalize_zip(zip: &str) -> (r: String)
    ensures
        r@ == zip5_of(zip@),
{
    let cs = chars_of(zip);
    let mut h: usize = 0;
    while h < cs.len() && cs[h] != '-'
        invariant
            h <= cs@.len(),
            char_index_from(cs@, '-', 0) == char_index_from(cs@, '-', h as int),
        decreases cs@.len() - h,
    {
        h = h + 1;
    }
    if h < cs.len() {
        string_of(&slice_chars(&cs, 0, h))
    } else if cs.len() >= 5 {
        string_of(&slice_chars(&cs, 0, 5))
    } else {
        string_of(&cs)
    }
}

/// The entry of a postal code read by its first five characters; none when
/// the code is shorter.
pub open spec fn entry_for_zip(m: Map<Seq<char>, ZipInfoView>, zip: Seq<char>) -> Option<ZipInfoView> {
    if zip.len() >= 5 && m.contains_key(zip.take(5)) {
        Some(m[zip.take(5)])
    } else {
        None
    }
}

fn entry_for_zip_exec<'a>(zip_plus_4: &str, zip_county_map: &'a ZipCountyMap) -> (r: Option<&'a ZipCountyInfo>)
    ensures
        match r {
            Some(i) => entry_for_zip(zip_county_map@, zip_plus_4@) == Some(i@),
            None => entry_for_zip(zip_county_map@, zip_plus_4@) is None,
        },
{
    let cs = chars_of(zip_plus_4);
    if cs.len() >= 5 {
        let zip5 = string_of(&slice_chars(&cs, 0, 5));
        assert(cs@.subrange(0, 5) =~= zip_plus_4@.take(5));
        zip_county_map.get(zip5.as_str())
    } else {
        None
    }
}

/// The region code of a postal code, looked up by its first five characters.
pub fn get_county_code_for_zip(zip_plus_4: &str, zip_county_map: &ZipCountyMap) -> (r: Option<String>)
    ensures
        match entry_for_zip(zip_county_map@, zip_plus_4@) {
            Some(e) => r matches Some(s) && s@ == e.county_code,
            None => r is None,
        },
{
    match entry_for_zip_exec(zip_plus_4, zip_county_map) {
        Some(info) => Some(info.county_code.clone()),
        None => None,
    }
}

/// The canonical three-digit code of a postal code, looked up by its first
/// five characters.
pub fn get_fips_code_for_zip(zip_plus_4: &str, zip_county_map: &ZipCountyMap) -> (r: Option<String>)
    ensures
        match entry_for_zip(zip_county_map@, zip_plus_4@) {
            Some(e) => r matches Some(s) && s@ == e.fips_code,
            None => r is None,
        },
{
    match entry_for_zip_exec(zip_plus_4, zip_county_map) {
        Some(info) => Some(info.fips_code.clone()),
        None => None,
    }
}

/// The region name of a postal code, looked up by its first five characters.
pub fn get_county_name_for_zip(zip_plus_4: &str, zip_county_map: &ZipCountyMap) -> (r: Option<String>)
    ensures
        match entry_for_zip(zip_county_map@, zip_plus_4@) {
            Some(e) => r matches Some(s) && s@ == e.county_name,
            None => r is None,
        },
{
    match entry_for_zip_exec(zip_plus_4, zip_county_map) {
        Some(info) => Some(info.county_name.clone()),
        None => None,
    }
}

/// A county row as text.
pub open spec fn county_row_view(r: (&str, &str, &str)) -> (Seq<char>, Seq<char>, Seq<char>) {
    (r.0@, r.1@, r.2@)
}

/// Canonical code and name of a region code: the last county row with that
/// code gives them; both are empty when no row has it.
pub open spec fn county_of(rows: Seq<(Seq<char>, Seq<char>, Seq<char>)>, code: Seq<char>) -> (Seq<char>, Seq<char>)
    decreases rows.len(),
{
    if rows.len() == 0 {
        (Seq::empty(), Seq::empty())
    } else if rows.last().0 == code {
        (rows.last().1, rows.last().2)
    } else {
        county_of(rows.drop_last(), code)
    }
}

/// The three fields of a `code:region:division` entry; none unless it has
/// exactly three.
pub open spec fn parse_zip_entry(e: Seq<char>) -> Option<(Seq<char>, Seq<char>, Seq<char>)> {
    let p = split_on(e, ':');
    if p.len() == 3 {
        Some((p[0], p[1], p[2]))
    } else {
        None
    }
}

/// The table that the entries give, each well-formed entry in turn setting
/// its postal code.
pub open spec fn zip_table(rows: Seq<(Seq<char>, Seq<char>, Seq<char>)>, entries: Seq<Seq<char>>) -> Map<Seq<char>, ZipInfoView>
    decreases entries.len(),
{
    if entries.len() == 0 {
        Map::empty()
    } else {
        let m = zip_table(rows, entries.drop_last());
        match parse_zip_entry(entries.last()) {
            Some((z, c, d)) => m.insert(z, ZipInfoView {
                county_code: c,
                division: d,
                fips_code: county_of(rows, c).0,
                county_name: county_of(rows, c).1,
            }),
            None => m,
        }
    }
}

fn county_of_exec(rows: &[(&str, &str, &str)], code: &String) -> (r: (String, String))
    ensures
        (r.0@, r.1@) == county_of(rows@.map_values(|x: (&str, &str, &str)| county_row_view(x)), code@),
{
    let ghost all = rows@.map_values(|x: (&str, &str, &str)| county_row_view(x));
    let mut i: usize = rows.len();
    assert(all.take(i as int) =~= all);
    while i > 0
        invariant
            i <= rows@.len(),
            all == rows@.map_values(|x: (&str, &str, &str)| county_row_view(x)),
            county_of(all, code@) == county_of(all.take(i as int), code@),
        decreases i,
    {
        let row = rows[i - 1];
        assert(all.take(i as int).drop_last() =~= all.take(i - 1));
        if row.0.to_string() == *code {
            return (row.1.to_string(), row.2.to_string());
        }
        i = i - 1;
    }
    (String::new(), String::new())
}

/// Builds the lookup table from county rows and `code:region:division`
/// entries; an entry without exactly three fields is left out, and a later
/// entry for the same postal code replaces an earlier one.
pub fn build_zip_county_map(county_rows: &[(&str, &str, &str)], entries: &[&str]) -> (r: ZipCountyMap)
    ensures
        r@ == zip_table(county_rows@.map_values(|x: (&str, &str, &str)| county_row_view(x)), entries@.map_values(|e: &str| e@)),
{
    let ghost rows = county_rows@.map_values(|x: (&str, &str, &str)| county_row_view(x));
    let ghost es = entries@.map_values(|e: &str| e@);
    let mut map = ZipCountyMap::new();
    let mut i: usize = 0;
    while i < entries.len()
        invariant
            i <= entries@.len(),
            rows == county_rows@.map_values(|x: (&str, &str, &str)| county_row_view(x)),
            es == entries@.map_values(|e: &str| e@),
            map@ == zip_table(rows, es.take(i as int)),
        decreases entries@.len() - i,
    {
        let entry = entries[i];
        let parts = split_chars(&chars_of(entry), ':');
        assert(es.take(i + 1).drop_last() =~= es.take(i as int));
        assert(es.take(i + 1).last() == entry@);
        if parts.len() == 3 {
            let zip = string_of(&parts[0]);
            let county_code = string_of(&parts[1]);
            let division = string_of(&parts[2]);
            let (fips_code, county_name) = county_of_exec(county_rows, &county_code);
            map.insert(zip, ZipCountyInfo { county_code, division, fips_code, county_name });
        }
        i = i + 1;
    }
    assert(es.take(entries@.len() as int) =~= es);
    map
}

/// The built-in reference table.
pub fn load_zip_county_map() -> (r: ZipCountyMap)
    ensures
        r@ == zip_table(COUNTY_ROWS@.map_values(|x: (&str, &str, &str)| county_row_view(x)), ZIP_ENTRIES@.map_values(|e: &str| e@)),
{
    build_zip_county_map(COUNTY_ROWS.as_slice(), ZIP_ENTRIES.as_slice())
}

} // verus!
