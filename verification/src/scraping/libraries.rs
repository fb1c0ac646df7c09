//! The libraries of the university's library system: their ids in the
//! catalogue and the search filters that restrict a search to their stock.

use vstd::prelude::*;
use crate::scraping::models::{Library, LibraryView};
use crate::text::same_text;

verus! {

/// The id and the search filter of the library named `name`, if the system
/// has a library of that name.
pub open spec fn known_library(name: Seq<char>) -> Option<(i32, Seq<char>)> {
    if name == "Staats- und Universitätsbibliothek"@ {
        Some((2, "(standort_iln_str_mv:22\\\\:SUB+OR+standort_iln_str_mv:22\\\\:SUB-*)"@))
    } else if name == "FB Sprache, Literatur, Medien"@ {
        Some((200, "(standort_iln_str_mv:22\\\\:18\\\\/156+OR+standort_iln_str_mv:22\\\\:18\\\\/61+OR+standort_iln_str_mv:22\\\\:18\\\\/59+OR+standort_iln_str_mv:22\\\\:18\\\\/12+OR+standort_iln_str_mv:22\\\\:18\\\\/21+OR+standort_iln_str_mv:22\\\\:18\\\\/39+OR+standort_iln_str_mv:22\\\\:18\\\\/294+OR+standort_iln_str_mv:22\\\\:18\\\\/219+OR+standort_iln_str_mv:22\\\\:18\\\\/156-*)"@))
    } else if name == "ZB Recht"@ {
        Some((1089712717, "(standort_iln_str_mv:22\\\\:18\\\\/304)"@))
    } else if name == "ZB Philosophie, Geschichte u. Klass. Philologie"@ {
        Some((155, "(standort_iln_str_mv:22\\\\:18\\\\/309-*)"@))
    } else if name == "FB Kulturwissenschaften"@ {
        Some((1168358212, "(standort_iln_str_mv:22\\\\:18\\\\/308+OR+standort_iln_str_mv:22\\\\:18\\\\/308-*)"@))
    } else if name == "Asien-Afrika-Inst."@ {
        Some((1067963281, "(standort_iln_str_mv:22\\\\:18\\\\/303+OR+standort_iln_str_mv:22\\\\:18\\\\/311+OR+standort_iln_str_mv:22\\\\:18\\\\/303-E)"@))
    } else if name == "Ärztliche Zentralbibliothek"@ {
        Some((347, "(standort_iln_str_mv:22\\\\:18\\\\/64+OR+standort_iln_str_mv:22\\\\:18\\\\/64-*+OR+standort_iln_str_mv:22\\\\:18\\\\/297)"@))
    } else if name == "Martha-Muchow-Bibliothek"@ {
        Some((1163089918, "(standort_iln_str_mv:22\\\\:18\\\\/307-*+OR+standort_iln_str_mv:22\\\\:18\\\\/310+OR+standort_iln_str_mv:22\\\\:18\\\\/307)"@))
    } else if name == "FB Geowissenschaften"@ {
        Some((112, "(standort_iln_str_mv:22\\\\:18\\\\/57+OR+standort_iln_str_mv:22\\\\:18\\\\/306+OR+standort_iln_str_mv:22\\\\:18\\\\/24+OR+standort_iln_str_mv:22\\\\:H8+OR+standort_iln_str_mv:22\\\\:18\\\\/314+OR+standort_iln_str_mv:22\\\\:18\\\\/306-*+OR+standort_iln_str_mv:22\\\\:18\\\\/57-*)"@))
    } else if name == "FB Wirtschaftswissenschaften"@ {
        Some((78, "(standort_iln_str_mv:22\\\\:18\\\\/261+OR+standort_iln_str_mv:22\\\\:18\\\\/261-*)"@))
    } else if name == "Nordostinst."@ {
        Some((1283848727, "(standort_iln_str_mv:22\\\\:18\\\\/313+OR+standort_iln_str_mv:22\\\\:18\\\\/313-*)"@))
    } else if name == "FB Theologie"@ {
        Some((71, "(standort_iln_str_mv:22\\\\:18\\\\/161+OR+standort_iln_str_mv:22\\\\:18\\\\/161-*)"@))
    } else if name == "FB Sozialwissenschaften"@ {
        Some((315, "(standort_iln_str_mv:22\\\\:18\\\\/76+OR+standort_iln_str_mv:22\\\\:18\\\\/76-*)"@))
    } else if name == "FB Biologie"@ {
        Some((369, "(standort_iln_str_mv:22\\\\:18\\\\/305+OR+standort_iln_str_mv:22\\\\:18\\\\/19)"@))
    } else if name == "Forschungsstelle für Zeitgeschichte HH"@ {
        Some((105, "(standort_iln_str_mv:22\\\\:H250)"@))
    } else if name == "FB Informatik"@ {
        Some((72, "(standort_iln_str_mv:22\\\\:18\\\\/228+OR+standort_iln_str_mv:22\\\\:18\\\\/228-*)"@))
    } else if name == "FB Mathematik"@ {
        Some((236, "(standort_iln_str_mv:22\\\\:18\\\\/263)"@))
    } else if name == "Linga-Bibliothek"@ {
        Some((0, "(standort_iln_str_mv:22\\\\:SUB-LINGA)"@))
    } else if name == "Musikwissenschaftliches Inst."@ {
        Some((252, "(standort_iln_str_mv:22\\\\:18\\\\/114)"@))
    } else if name == "Inst. für die Geschichte der deutschen Juden"@ {
        Some((179, "(standort_iln_str_mv:\"22\\\\:H 227\")"@))
    } else if name == "FB Physik"@ {
        Some((267, "(standort_iln_str_mv:22\\\\:18\\\\/47-*+OR+standort_iln_str_mv:22\\\\:18\\\\/269+OR+standort_iln_str_mv:22\\\\:18\\\\/270+OR+standort_iln_str_mv:22\\\\:18\\\\/47)"@))
    } else if name == "FB Chemie"@ {
        Some((48, "(standort_iln_str_mv:22\\\\:18\\\\/48+OR+standort_iln_str_mv:22\\\\:18\\\\/48-*)"@))
    } else if name == "Inst. für Friedensforschung und Sicherheitspolitik"@ {
        Some((182, "(standort_iln_str_mv:22\\\\:18\\\\/226)"@))
    } else if name == "Hamburger Sternwarte"@ {
        Some((138, "(standort_iln_str_mv:22\\\\:18\\\\/15)"@))
    } else if name == "HH Bibl. für Universitätsgeschichte"@ {
        Some((124, "(standort_iln_str_mv:22\\\\:18\\\\/296)"@))
    } else if name == "Bibl. für deutschsprachige Exilliteratur"@ {
        Some((120, "(standort_iln_str_mv:22\\\\:18\\\\/290+OR+standort_iln_str_mv:22\\\\:SUB-OS)"@))
    } else if name == "ZB Frauen und Gender Studies"@ {
        Some((217, "(standort_iln_str_mv:22\\\\:18\\\\/261-k)"@))
    } else if name == "Arbeitsstelle für Hamburgische Geschichte"@ {
        Some((185, "(standort_iln_str_mv:22\\\\:18\\\\/309-s*)"@))
    } else if name == "Bibl. deutsche Gebärdensprache"@ {
        Some((365, "(standort_iln_str_mv:22\\\\:18\\\\/295)"@))
    } else if name == "Centre for the Study of Manuscript Cultures"@ {
        Some((1283848716, "(standort_iln_str_mv:22\\\\:18\\\\/303-SFB)"@))
    } else if name == "Inst. für Jüdische Philosophie und Religion"@ {
        Some((1283848732, "(standort_iln_str_mv:22\\\\:18\\\\/309-j+OR+standort_iln_str_mv:22\\\\:18\\\\/309-m)"@))
    } else if name == "Europa-Kolleg"@ {
        Some((0, "(standort_iln_str_mv:22\\\\:18\\\\/254)"@))
    } else if name == "Hans-Bredow-Institut"@ {
        Some((150, "(standort_iln_str_mv:22\\\\:18\\\\/174)"@))
    } else if name == "Missionsakademie"@ {
        Some((0, "(standort_iln_str_mv:22\\\\:18\\\\/239)"@))
    } else if name == "Gerd-Bucerius-Bibliothek"@ {
        Some((0, "(standort_iln_str_mv:22\\\\:H22)"@))
    } else {
        None
    }
}

/// The library named `name`: its id and filter from the table, or id 0 and
/// an empty filter for a name that the table does not hold.
pub open spec fn library_of(name: Seq<char>) -> LibraryView {
    match known_library(name) {
        Some((id, filter)) => LibraryView { id, name, filter },
        None => LibraryView { id: 0, name, filter: Seq::empty() },
    }
}

/// Looks up the id and the search filter of the library named `name`.
pub fn lookup_library(name: &str) -> (res: Option<(i32, &'static str)>)
    ensures
        res matches Some((id, filter)) ==> known_library(name@) == Some((id, filter@)),
        res is None ==> known_library(name@) is None,
{
    if same_text(name, "Staats- und Universitätsbibliothek") {
        Some((2, "(standort_iln_str_mv:22\\\\:SUB+OR+standort_iln_str_mv:22\\\\:SUB-*)"))
    } else if same_text(name, "FB Sprache, Literatur, Medien") {
        Some((200, "(standort_iln_str_mv:22\\\\:18\\\\/156+OR+standort_iln_str_mv:22\\\\:18\\\\/61+OR+standort_iln_str_mv:22\\\\:18\\\\/59+OR+standort_iln_str_mv:22\\\\:18\\\\/12+OR+standort_iln_str_mv:22\\\\:18\\\\/21+OR+standort_iln_str_mv:22\\\\:18\\\\/39+OR+standort_iln_str_mv:22\\\\:18\\\\/294+OR+standort_iln_str_mv:22\\\\:18\\\\/219+OR+standort_iln_str_mv:22\\\\:18\\\\/156-*)"))
    } else if same_text(name, "ZB Recht") {
        Some((1089712717, "(standort_iln_str_mv:22\\\\:18\\\\/304)"))
    } else if same_text(name, "ZB Philosophie, Geschichte u. Klass. Philologie") {
        Some((155, "(standort_iln_str_mv:22\\\\:18\\\\/309-*)"))
    } else if same_text(name, "FB Kulturwissenschaften") {
        Some((1168358212, "(standort_iln_str_mv:22\\\\:18\\\\/308+OR+standort_iln_str_mv:22\\\\:18\\\\/308-*)"))
    } else if same_text(name, "Asien-Afrika-Inst.") {
        Some((1067963281, "(standort_iln_str_mv:22\\\\:18\\\\/303+OR+standort_iln_str_mv:22\\\\:18\\\\/311+OR+standort_iln_str_mv:22\\\\:18\\\\/303-E)"))
    } else if same_text(name, "Ärztliche Zentralbibliothek") {
        Some((347, "(standort_iln_str_mv:22\\\\:18\\\\/64+OR+standort_iln_str_mv:22\\\\:18\\\\/64-*+OR+standort_iln_str_mv:22\\\\:18\\\\/297)"))
    } else if same_text(name, "Martha-Muchow-Bibliothek") {
        Some((1163089918, "(standort_iln_str_mv:22\\\\:18\\\\/307-*+OR+standort_iln_str_mv:22\\\\:18\\\\/310+OR+standort_iln_str_mv:22\\\\:18\\\\/307)"))
    } else if same_text(name, "FB Geowissenschaften") {
        Some((112, "(standort_iln_str_mv:22\\\\:18\\\\/57+OR+standort_iln_str_mv:22\\\\:18\\\\/306+OR+standort_iln_str_mv:22\\\\:18\\\\/24+OR+standort_iln_str_mv:22\\\\:H8+OR+standort_iln_str_mv:22\\\\:18\\\\/314+OR+standort_iln_str_mv:22\\\\:18\\\\/306-*+OR+standort_iln_str_mv:22\\\\:18\\\\/57-*)"))
    } else if same_text(name, "FB Wirtschaftswissenschaften") {
        Some((78, "(standort_iln_str_mv:22\\\\:18\\\\/261+OR+standort_iln_str_mv:22\\\\:18\\\\/261-*)"))
    } else if same_text(name, "Nordostinst.") {
        Some((1283848727, "(standort_iln_str_mv:22\\\\:18\\\\/313+OR+standort_iln_str_mv:22\\\\:18\\\\/313-*)"))
    } else if same_text(name, "FB Theologie") {
        Some((71, "(standort_iln_str_mv:22\\\\:18\\\\/161+OR+standort_iln_str_mv:22\\\\:18\\\\/161-*)"))
    } else if same_text(name, "FB Sozialwissenschaften") {
        Some((315, "(standort_iln_str_mv:22\\\\:18\\\\/76+OR+standort_iln_str_mv:22\\\\:18\\\\/76-*)"))
    } else if same_text(name, "FB Biologie") {
        Some((369, "(standort_iln_str_mv:22\\\\:18\\\\/305+OR+standort_iln_str_mv:22\\\\:18\\\\/19)"))
    } else if same_text(name, "Forschungsstelle für Zeitgeschichte HH") {
        Some((105, "(standort_iln_str_mv:22\\\\:H250)"))
    } else if same_text(name, "FB Informatik") {
        Some((72, "(standort_iln_str_mv:22\\\\:18\\\\/228+OR+standort_iln_str_mv:22\\\\:18\\\\/228-*)"))
    } else if same_text(name, "FB Mathematik") {
        Some((236, "(standort_iln_str_mv:22\\\\:18\\\\/263)"))
    } else if same_text(name, "Linga-Bibliothek") {
        Some((0, "(standort_iln_str_mv:22\\\\:SUB-LINGA)"))
    } else if same_text(name, "Musikwissenschaftliches Inst.") {
        Some((252, "(standort_iln_str_mv:22\\\\:18\\\\/114)"))
    } else if same_text(name, "Inst. für die Geschichte der deutschen Juden") {
        Some((179, "(standort_iln_str_mv:\"22\\\\:H 227\")"))
    } else if same_text(name, "FB Physik") {
        Some((267, "(standort_iln_str_mv:22\\\\:18\\\\/47-*+OR+standort_iln_str_mv:22\\\\:18\\\\/269+OR+standort_iln_str_mv:22\\\\:18\\\\/270+OR+standort_iln_str_mv:22\\\\:18\\\\/47)"))
    } else if same_text(name, "FB Chemie") {
        Some((48, "(standort_iln_str_mv:22\\\\:18\\\\/48+OR+standort_iln_str_mv:22\\\\:18\\\\/48-*)"))
    } else if same_text(name, "Inst. für Friedensforschung und Sicherheitspolitik") {
        Some((182, "(standort_iln_str_mv:22\\\\:18\\\\/226)"))
    } else if same_text(name, "Hamburger Sternwarte") {
        Some((138, "(standort_iln_str_mv:22\\\\:18\\\\/15)"))
    } else if same_text(name, "HH Bibl. für Universitätsgeschichte") {
        Some((124, "(standort_iln_str_mv:22\\\\:18\\\\/296)"))
    } else if same_text(name, "Bibl. für deutschsprachige Exilliteratur") {
        Some((120, "(standort_iln_str_mv:22\\\\:18\\\\/290+OR+standort_iln_str_mv:22\\\\:SUB-OS)"))
    } else if same_text(name, "ZB Frauen und Gender Studies") {
        Some((217, "(standort_iln_str_mv:22\\\\:18\\\\/261-k)"))
    } else if same_text(name, "Arbeitsstelle für Hamburgische Geschichte") {
        Some((185, "(standort_iln_str_mv:22\\\\:18\\\\/309-s*)"))
    } else if same_text(name, "Bibl. deutsche Gebärdensprache") {
        Some((365, "(standort_iln_str_mv:22\\\\:18\\\\/295)"))
    } else if same_text(name, "Centre for the Study of Manuscript Cultures") {
        Some((1283848716, "(standort_iln_str_mv:22\\\\:18\\\\/303-SFB)"))
    } else if same_text(name, "Inst. für Jüdische Philosophie und Religion") {
        Some((1283848732, "(standort_iln_str_mv:22\\\\:18\\\\/309-j+OR+standort_iln_str_mv:22\\\\:18\\\\/309-m)"))
    } else if same_text(name, "Europa-Kolleg") {
        Some((0, "(standort_iln_str_mv:22\\\\:18\\\\/254)"))
    } else if same_text(name, "Hans-Bredow-Institut") {
        Some((150, "(standort_iln_str_mv:22\\\\:18\\\\/174)"))
    } else if same_text(name, "Missionsakademie") {
        Some((0, "(standort_iln_str_mv:22\\\\:18\\\\/239)"))
    } else if same_text(name, "Gerd-Bucerius-Bibliothek") {
        Some((0, "(standort_iln_str_mv:22\\\\:H22)"))
    } else {
        None
    }
}

/// The library named `str`, as the account pages name it.
pub fn to_library(str: &str) -> (res: Library)
    ensures
        res.deep_view() == library_of(str@),
{
    match lookup_library(str) {
        Some((id, filter)) => Library { id, name: str.to_owned(), filter: filter.to_owned() },
        None => {
            let empty = "";
            proof {
                reveal_strlit("");
                assert(empty@ =~= Seq::<char>::empty());
            }
            Library { id: 0, name: str.to_owned(), filter: empty.to_owned() }
        },
    }
}

/// The library that a nonzero id stands for.
spec fn library_named(id: i32) -> Seq<char> {
    if id == 2 {
        "Staats- und Universitätsbibliothek"@
    } else if id == 200 {
        "FB Sprache, Literatur, Medien"@
    } else if id == 1089712717 {
        "ZB Recht"@
    } else if id == 155 {
        "ZB Philosophie, Geschichte u. Klass. Philologie"@
    } else if id == 1168358212 {
        "FB Kulturwissenschaften"@
    } else if id == 1067963281 {
        "Asien-Afrika-Inst."@
    } else if id == 347 {
        "Ärztliche Zentralbibliothek"@
    } else if id == 1163089918 {
        "Martha-Muchow-Bibliothek"@
    } else if id == 112 {
        "FB Geowissenschaften"@
    } else if id == 78 {
        "FB Wirtschaftswissenschaften"@
    } else if id == 1283848727 {
        "Nordostinst."@
    } else if id == 71 {
        "FB Theologie"@
    } else if id == 315 {
        "FB Sozialwissenschaften"@
    } else if id == 369 {
        "FB Biologie"@
    } else if id == 105 {
        "Forschungsstelle für Zeitgeschichte HH"@
    } else if id == 72 {
        "FB Informatik"@
    } else if id == 236 {
        "FB Mathematik"@
    } else if id == 252 {
        "Musikwissenschaftliches Inst."@
    } else if id == 179 {
        "Inst. für die Geschichte der deutschen Juden"@
    } else if id == 267 {
        "FB Physik"@
    } else if id == 48 {
        "FB Chemie"@
    } else if id == 182 {
        "Inst. für Friedensforschung und Sicherheitspolitik"@
    } else if id == 138 {
        "Hamburger Sternwarte"@
    } else if id == 124 {
        "HH Bibl. für Universitätsgeschichte"@
    } else if id == 120 {
        "Bibl. für deutschsprachige Exilliteratur"@
    } else if id == 217 {
        "ZB Frauen und Gender Studies"@
    } else if id == 185 {
        "Arbeitsstelle für Hamburgische Geschichte"@
    } else if id == 365 {
        "Bibl. deutsche Gebärdensprache"@
    } else if id == 1283848716 {
        "Centre for the Study of Manuscript Cultures"@
    } else if id == 1283848732 {
        "Inst. für Jüdische Philosophie und Religion"@
    } else if id == 150 {
        "Hans-Bredow-Institut"@
    } else {
        Seq::empty()
    }
}

/// The library that a known name with a nonzero id names is the one that
/// id stands for.
proof fn lemma_named_by_id(name: Seq<char>)
    ensures
        known_library(name) matches Some((id, _)) ==> (id != 0 ==> library_named(id) == name),
{
}

/// No two libraries share a nonzero id: a nonzero id names one library.
pub proof fn lemma_library_ids_distinct(a: Seq<char>, b: Seq<char>)
    ensures
        known_library(a) matches Some((i, _)) ==> (known_library(b) matches Some((j, _)) ==> (i
            == j && i != 0 ==> a == b)),
{
    lemma_named_by_id(a);
    lemma_named_by_id(b);
}

/// Each library of the table has its catalogue id and search filter, and a
/// name that is not in the table has the id 0 and no filter.
pub proof fn lemma_library_ids(name: Seq<char>)
    ensures
        library_of("Staats- und Universitätsbibliothek"@).id == 2,
        library_of("FB Sprache, Literatur, Medien"@).id == 200,
        library_of("ZB Recht"@).id == 1089712717,
        library_of("ZB Philosophie, Geschichte u. Klass. Philologie"@).id == 155,
        library_of("FB Kulturwissenschaften"@).id == 1168358212,
        library_of("Asien-Afrika-Inst."@).id == 1067963281,
        library_of("Ärztliche Zentralbibliothek"@).id == 347,
        library_of("Martha-Muchow-Bibliothek"@).id == 1163089918,
        library_of("FB Geowissenschaften"@).id == 112,
        library_of("FB Wirtschaftswissenschaften"@).id == 78,
        library_of("Nordostinst."@).id == 1283848727,
        library_of("FB Theologie"@).id == 71,
        library_of("FB Sozialwissenschaften"@).id == 315,
        library_of("FB Biologie"@).id == 369,
        library_of("Forschungsstelle für Zeitgeschichte HH"@).id == 105,
        library_of("FB Informatik"@).id == 72,
        library_of("FB Mathematik"@).id == 236,
        library_of("Linga-Bibliothek"@).id == 0,
        library_of("Musikwissenschaftliches Inst."@).id == 252,
        library_of("Inst. für die Geschichte der deutschen Juden"@).id == 179,
        library_of("FB Physik"@).id == 267,
        library_of("FB Chemie"@).id == 48,
        library_of("Inst. für Friedensforschung und Sicherheitspolitik"@).id == 182,
        library_of("Hamburger Sternwarte"@).id == 138,
        library_of("HH Bibl. für Universitätsgeschichte"@).id == 124,
        library_of("Bibl. für deutschsprachige Exilliteratur"@).id == 120,
        library_of("ZB Frauen und Gender Studies"@).id == 217,
        library_of("Arbeitsstelle für Hamburgische Geschichte"@).id == 185,
        library_of("Bibl. deutsche Gebärdensprache"@).id == 365,
        library_of("Centre for the Study of Manuscript Cultures"@).id == 1283848716,
        library_of("Inst. für Jüdische Philosophie und Religion"@).id == 1283848732,
        library_of("Europa-Kolleg"@).id == 0,
        library_of("Hans-Bredow-Institut"@).id == 150,
        library_of("Missionsakademie"@).id == 0,
        library_of("Gerd-Bucerius-Bibliothek"@).id == 0,
        library_of("Staats- und Universitätsbibliothek"@).filter == "(standort_iln_str_mv:22\\\\:SUB+OR+standort_iln_str_mv:22\\\\:SUB-*)"@,
        library_of("FB Sprache, Literatur, Medien"@).filter == "(standort_iln_str_mv:22\\\\:18\\\\/156+OR+standort_iln_str_mv:22\\\\:18\\\\/61+OR+standort_iln_str_mv:22\\\\:18\\\\/59+OR+standort_iln_str_mv:22\\\\:18\\\\/12+OR+standort_iln_str_mv:22\\\\:18\\\\/21+OR+standort_iln_str_mv:22\\\\:18\\\\/39+OR+standort_iln_str_mv:22\\\\:18\\\\/294+OR+standort_iln_str_mv:22\\\\:18\\\\/219+OR+standort_iln_str_mv:22\\\\:18\\\\/156-*)"@,
        library_of("ZB Recht"@).filter == "(standort_iln_str_mv:22\\\\:18\\\\/304)"@,
        library_of("ZB Philosophie, Geschichte u. Klass. Philologie"@).filter == "(standort_iln_str_mv:22\\\\:18\\\\/309-*)"@,
        library_of("FB Kulturwissenschaften"@).filter == "(standort_iln_str_mv:22\\\\:18\\\\/308+OR+standort_iln_str_mv:22\\\\:18\\\\/308-*)"@,
        library_of("Asien-Afrika-Inst."@).filter == "(standort_iln_str_mv:22\\\\:18\\\\/303+OR+standort_iln_str_mv:22\\\\:18\\\\/311+OR+standort_iln_str_mv:22\\\\:18\\\\/303-E)"@,
        library_of("Ärztliche Zentralbibliothek"@).filter == "(standort_iln_str_mv:22\\\\:18\\\\/64+OR+standort_iln_str_mv:22\\\\:18\\\\/64-*+OR+standort_iln_str_mv:22\\\\:18\\\\/297)"@,
        library_of("Martha-Muchow-Bibliothek"@).filter == "(standort_iln_str_mv:22\\\\:18\\\\/307-*+OR+standort_iln_str_mv:22\\\\:18\\\\/310+OR+standort_iln_str_mv:22\\\\:18\\\\/307)"@,
        library_of("FB Geowissenschaften"@).filter == "(standort_iln_str_mv:22\\\\:18\\\\/57+OR+standort_iln_str_mv:22\\\\:18\\\\/306+OR+standort_iln_str_mv:22\\\\:18\\\\/24+OR+standort_iln_str_mv:22\\\\:H8+OR+standort_iln_str_mv:22\\\\:18\\\\/314+OR+standort_iln_str_mv:22\\\\:18\\\\/306-*+OR+standort_iln_str_mv:22\\\\:18\\\\/57-*)"@,
        library_of("FB Wirtschaftswissenschaften"@).filter == "(standort_iln_str_mv:22\\\\:18\\\\/261+OR+standort_iln_str_mv:22\\\\:18\\\\/261-*)"@,
        library_of("Nordostinst."@).filter == "(standort_iln_str_mv:22\\\\:18\\\\/313+OR+standort_iln_str_mv:22\\\\:18\\\\/313-*)"@,
        library_of("FB Theologie"@).filter == "(standort_iln_str_mv:22\\\\:18\\\\/161+OR+standort_iln_str_mv:22\\\\:18\\\\/161-*)"@,
        library_of("FB Sozialwissenschaften"@).filter == "(standort_iln_str_mv:22\\\\:18\\\\/76+OR+standort_iln_str_mv:22\\\\:18\\\\/76-*)"@,
        library_of("FB Biologie"@).filter == "(standort_iln_str_mv:22\\\\:18\\\\/305+OR+standort_iln_str_mv:22\\\\:18\\\\/19)"@,
        library_of("Forschungsstelle für Zeitgeschichte HH"@).filter == "(standort_iln_str_mv:22\\\\:H250)"@,
        library_of("FB Informatik"@).filter == "(standort_iln_str_mv:22\\\\:18\\\\/228+OR+standort_iln_str_mv:22\\\\:18\\\\/228-*)"@,
        library_of("FB Mathematik"@).filter == "(standort_iln_str_mv:22\\\\:18\\\\/263)"@,
        library_of("Linga-Bibliothek"@).filter == "(standort_iln_str_mv:22\\\\:SUB-LINGA)"@,
        library_of("Musikwissenschaftliches Inst."@).filter == "(standort_iln_str_mv:22\\\\:18\\\\/114)"@,
        library_of("Inst. für die Geschichte der deutschen Juden"@).filter == "(standort_iln_str_mv:\"22\\\\:H 227\")"@,
        library_of("FB Physik"@).filter == "(standort_iln_str_mv:22\\\\:18\\\\/47-*+OR+standort_iln_str_mv:22\\\\:18\\\\/269+OR+standort_iln_str_mv:22\\\\:18\\\\/270+OR+standort_iln_str_mv:22\\\\:18\\\\/47)"@,
        library_of("FB Chemie"@).filter == "(standort_iln_str_mv:22\\\\:18\\\\/48+OR+standort_iln_str_mv:22\\\\:18\\\\/48-*)"@,
        library_of("Inst. für Friedensforschung und Sicherheitspolitik"@).filter == "(standort_iln_str_mv:22\\\\:18\\\\/226)"@,
        library_of("Hamburger Sternwarte"@).filter == "(standort_iln_str_mv:22\\\\:18\\\\/15)"@,
        library_of("HH Bibl. für Universitätsgeschichte"@).filter == "(standort_iln_str_mv:22\\\\:18\\\\/296)"@,
        library_of("Bibl. für deutschsprachige Exilliteratur"@).filter == "(standort_iln_str_mv:22\\\\:18\\\\/290+OR+standort_iln_str_mv:22\\\\:SUB-OS)"@,
        library_of("ZB Frauen und Gender Studies"@).filter == "(standort_iln_str_mv:22\\\\:18\\\\/261-k)"@,
        library_of("Arbeitsstelle für Hamburgische Geschichte"@).filter == "(standort_iln_str_mv:22\\\\:18\\\\/309-s*)"@,
        library_of("Bibl. deutsche Gebärdensprache"@).filter == "(standort_iln_str_mv:22\\\\:18\\\\/295)"@,
        library_of("Centre for the Study of Manuscript Cultures"@).filter == "(standort_iln_str_mv:22\\\\:18\\\\/303-SFB)"@,
        library_of("Inst. für Jüdische Philosophie und Religion"@).filter == "(standort_iln_str_mv:22\\\\:18\\\\/309-j+OR+standort_iln_str_mv:22\\\\:18\\\\/309-m)"@,
        library_of("Europa-Kolleg"@).filter == "(standort_iln_str_mv:22\\\\:18\\\\/254)"@,
        library_of("Hans-Bredow-Institut"@).filter == "(standort_iln_str_mv:22\\\\:18\\\\/174)"@,
        library_of("Missionsakademie"@).filter == "(standort_iln_str_mv:22\\\\:18\\\\/239)"@,
        library_of("Gerd-Bucerius-Bibliothek"@).filter == "(standort_iln_str_mv:22\\\\:H22)"@,
        known_library(name) is None ==> library_of(name).id == 0,
        known_library(name) is None ==> library_of(name).filter.len() == 0,
        library_of(name).name == name,
{
    reveal_strlit("Staats- und Universitätsbibliothek");
    reveal_strlit("FB Sprache, Literatur, Medien");
    reveal_strlit("ZB Recht");
    reveal_strlit("ZB Philosophie, Geschichte u. Klass. Philologie");
    reveal_strlit("FB Kulturwissenschaften");
    reveal_strlit("Asien-Afrika-Inst.");
    reveal_strlit("Ärztliche Zentralbibliothek");
    reveal_strlit("Martha-Muchow-Bibliothek");
    reveal_strlit("FB Geowissenschaften");
    reveal_strlit("FB Wirtschaftswissenschaften");
    reveal_strlit("Nordostinst.");
    reveal_strlit("FB Theologie");
    reveal_strlit("FB Sozialwissenschaften");
    reveal_strlit("FB Biologie");
    reveal_strlit("Forschungsstelle für Zeitgeschichte HH");
    reveal_strlit("FB Informatik");
    reveal_strlit("FB Mathematik");
    reveal_strlit("Linga-Bibliothek");
    reveal_strlit("Musikwissenschaftliches Inst.");
    reveal_strlit("Inst. für die Geschichte der deutschen Juden");
    reveal_strlit("FB Physik");
    reveal_strlit("FB Chemie");
    reveal_strlit("Inst. für Friedensforschung und Sicherheitspolitik");
    reveal_strlit("Hamburger Sternwarte");
    reveal_strlit("HH Bibl. für Universitätsgeschichte");
    reveal_strlit("Bibl. für deutschsprachige Exilliteratur");
    reveal_strlit("ZB Frauen und Gender Studies");
    reveal_strlit("Arbeitsstelle für Hamburgische Geschichte");
    reveal_strlit("Bibl. deutsche Gebärdensprache");
    reveal_strlit("Centre for the Study of Manuscript Cultures");
    reveal_strlit("Inst. für Jüdische Philosophie und Religion");
    reveal_strlit("Europa-Kolleg");
    reveal_strlit("Hans-Bredow-Institut");
    reveal_strlit("Missionsakademie");
    reveal_strlit("Gerd-Bucerius-Bibliothek");
    assert("Staats- und Universitätsbibliothek"@.len() == 34);
    assert("FB Sprache, Literatur, Medien"@.len() == 29);
    assert("ZB Recht"@.len() == 8);
    assert("ZB Philosophie, Geschichte u. Klass. Philologie"@.len() == 47);
    assert("FB Kulturwissenschaften"@.len() == 23);
    assert("Asien-Afrika-Inst."@.len() == 18);
    assert("Ärztliche Zentralbibliothek"@.len() == 27);
    assert("Martha-Muchow-Bibliothek"@.len() == 24);
    assert("FB Geowissenschaften"@.len() == 20);
    assert("FB Wirtschaftswissenschaften"@.len() == 28);
    assert("Nordostinst."@.len() == 12);
    assert("FB Theologie"@.len() == 12);
    assert("FB Sozialwissenschaften"@.len() == 23);
    assert("FB Biologie"@.len() == 11);
    assert("Forschungsstelle für Zeitgeschichte HH"@.len() == 38);
    assert("FB Informatik"@.len() == 13);
    assert("FB Mathematik"@.len() == 13);
    assert("Linga-Bibliothek"@.len() == 16);
    assert("Musikwissenschaftliches Inst."@.len() == 29);
    assert("Inst. für die Geschichte der deutschen Juden"@.len() == 44);
    assert("FB Physik"@.len() == 9);
    assert("FB Chemie"@.len() == 9);
    assert("Inst. für Friedensforschung und Sicherheitspolitik"@.len() == 50);
    assert("Hamburger Sternwarte"@.len() == 20);
    assert("HH Bibl. für Universitätsgeschichte"@.len() == 35);
    assert("Bibl. für deutschsprachige Exilliteratur"@.len() == 40);
    assert("ZB Frauen und Gender Studies"@.len() == 28);
    assert("Arbeitsstelle für Hamburgische Geschichte"@.len() == 41);
    assert("Bibl. deutsche Gebärdensprache"@.len() == 30);
    assert("Centre for the Study of Manuscript Cultures"@.len() == 43);
    assert("Inst. für Jüdische Philosophie und Religion"@.len() == 43);
    assert("Europa-Kolleg"@.len() == 13);
    assert("Hans-Bredow-Institut"@.len() == 20);
    assert("Missionsakademie"@.len() == 16);
    assert("Gerd-Bucerius-Bibliothek"@.len() == 24);
    assert("FB Sprache, Literatur, Medien"@[0] != "Musikwissenschaftliches Inst."@[0]);
    assert("FB Kulturwissenschaften"@[3] != "FB Sozialwissenschaften"@[3]);
    assert("Martha-Muchow-Bibliothek"@[0] != "Gerd-Bucerius-Bibliothek"@[0]);
    assert("FB Geowissenschaften"@[0] != "Hamburger Sternwarte"@[0]);
    assert("FB Geowissenschaften"@[0] != "Hans-Bredow-Institut"@[0]);
    assert("Hamburger Sternwarte"@[2] != "Hans-Bredow-Institut"@[2]);
    assert("FB Wirtschaftswissenschaften"@[0] != "ZB Frauen und Gender Studies"@[0]);
    assert("Nordostinst."@[0] != "FB Theologie"@[0]);
    assert("FB Informatik"@[3] != "FB Mathematik"@[3]);
    assert("FB Informatik"@[0] != "Europa-Kolleg"@[0]);
    assert("FB Mathematik"@[0] != "Europa-Kolleg"@[0]);
    assert("Linga-Bibliothek"@[0] != "Missionsakademie"@[0]);
    assert("FB Physik"@[3] != "FB Chemie"@[3]);
    assert("Centre for the Study of Manuscript Cultures"@[0] != "Inst. für Jüdische Philosophie und Religion"@[0]);
    assert(library_of("Staats- und Universitätsbibliothek"@).id == 2);
    assert(library_of("FB Sprache, Literatur, Medien"@).id == 200);
    assert(library_of("ZB Recht"@).id == 1089712717);
    assert(library_of("ZB Philosophie, Geschichte u. Klass. Philologie"@).id == 155);
    assert(library_of("FB Kulturwissenschaften"@).id == 1168358212);
    assert(library_of("Asien-Afrika-Inst."@).id == 1067963281);
    assert(library_of("Ärztliche Zentralbibliothek"@).id == 347);
    assert(library_of("Martha-Muchow-Bibliothek"@).id == 1163089918);
    assert(library_of("FB Geowissenschaften"@).id == 112);
    assert(library_of("FB Wirtschaftswissenschaften"@).id == 78);
    assert(library_of("Nordostinst."@).id == 1283848727);
    assert(library_of("FB Theologie"@).id == 71);
    assert(library_of("FB Sozialwissenschaften"@).id == 315);
    assert(library_of("FB Biologie"@).id == 369);
    assert(library_of("Forschungsstelle für Zeitgeschichte HH"@).id == 105);
    assert(library_of("FB Informatik"@).id == 72);
    assert(library_of("FB Mathematik"@).id == 236);
    assert(library_of("Linga-Bibliothek"@).id == 0);
    assert(library_of("Musikwissenschaftliches Inst."@).id == 252);
    assert(library_of("Inst. für die Geschichte der deutschen Juden"@).id == 179);
    assert(library_of("FB Physik"@).id == 267);
    assert(library_of("FB Chemie"@).id == 48);
    assert(library_of("Inst. für Friedensforschung und Sicherheitspolitik"@).id == 182);
    assert(library_of("Hamburger Sternwarte"@).id == 138);
    assert(library_of("HH Bibl. für Universitätsgeschichte"@).id == 124);
    assert(library_of("Bibl. für deutschsprachige Exilliteratur"@).id == 120);
    assert(library_of("ZB Frauen und Gender Studies"@).id == 217);
    assert(library_of("Arbeitsstelle für Hamburgische Geschichte"@).id == 185);
    assert(library_of("Bibl. deutsche Gebärdensprache"@).id == 365);
    assert(library_of("Centre for the Study of Manuscript Cultures"@).id == 1283848716);
    assert(library_of("Inst. für Jüdische Philosophie und Religion"@).id == 1283848732);
    assert(library_of("Europa-Kolleg"@).id == 0);
    assert(library_of("Hans-Bredow-Institut"@).id == 150);
    assert(library_of("Missionsakademie"@).id == 0);
    assert(library_of("Gerd-Bucerius-Bibliothek"@).id == 0);
}

} // verus!
