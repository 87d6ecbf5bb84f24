//! The event data model: a batch of flat, string-typed client event records.
//!
//! A record's fields are immutable once constructed; `sid`, the session id,
//! is the partition key used when the record is published. The producer
//! serializes a record with [`encode_event`]; the consumer side reads it back
//! with [`decode_event`], and the round-trip law at the bottom of this module
//! proves that decoding an encoding yields an equal record.

use vstd::prelude::*;
use crate::codec::{enc_fields, fields_fit, parse_fields, encode_fields, decode_fields, lemma_fields_round_trip};

verus! {

/// One tracked client event. Every field is a string or an optional string;
/// `sid` is the session id used as the publish key.
#[derive(Debug, Clone, PartialEq, Eq)]
pub struct EventData {
    pub e: String,
    pub eid: String,
    pub tv: String,
    pub tna: String,
    pub aid: String,
    pub p: String,
    pub cookie: String,
    pub cs: Option<String>,
    pub cx: Option<String>,
    pub lang: String,
    pub res: String,
    pub cd: String,
    pub tz: String,
    pub dtm: String,
    pub vp: String,
    pub ds: String,
    pub vid: String,
    pub sid: String,
    pub duid: String,
    pub refr: Option<String>,
    pub url: String,
    pub ue_pr: Option<String>,
    pub ue_px: Option<String>,
    pub co: Option<String>,
    pub stm: String,
}

/// The mathematical value of an [`EventData`]: each field as its character
/// sequence.
#[verifier::ext_equal]
pub struct EventDataV {
    pub e: Seq<char>,
    pub eid: Seq<char>,
    pub tv: Seq<char>,
    pub tna: Seq<char>,
    pub aid: Seq<char>,
    pub p: Seq<char>,
    pub cookie: Seq<char>,
    pub cs: Option<Seq<char>>,
    pub cx: Option<Seq<char>>,
    pub lang: Seq<char>,
    pub res: Seq<char>,
    pub cd: Seq<char>,
    pub tz: Seq<char>,
    pub dtm: Seq<char>,
    pub vp: Seq<char>,
    pub ds: Seq<char>,
    pub vid: Seq<char>,
    pub sid: Seq<char>,
    pub duid: Seq<char>,
    pub refr: Option<Seq<char>>,
    pub url: Seq<char>,
    pub ue_pr: Option<Seq<char>>,
    pub ue_px: Option<Seq<char>>,
    pub co: Option<Seq<char>>,
    pub stm: Seq<char>,
}

impl View for EventData {
    type V = EventDataV;

    open spec fn view(&self) -> EventDataV {
        EventDataV {
            e: self.e@,
            eid: self.eid@,
            tv: self.tv@,
            tna: self.tna@,
            aid: self.aid@,
            p: self.p@,
            cookie: self.cookie@,
            cs: self.cs.deep_view(),
            cx: self.cx.deep_view(),
            lang: self.lang@,
            res: self.res@,
            cd: self.cd@,
            tz: self.tz@,
            dtm: self.dtm@,
            vp: self.vp@,
            ds: self.ds@,
            vid: self.vid@,
            sid: self.sid@,
            duid: self.duid@,
            refr: self.refr.deep_view(),
            url: self.url@,
            ue_pr: self.ue_pr.deep_view(),
            ue_px: self.ue_px.deep_view(),
            co: self.co.deep_view(),
            stm: self.stm@,
        }
    }
}

impl DeepView for EventData {
    type V = EventDataV;

    open spec fn deep_view(&self) -> EventDataV {
        self.view()
    }
}

/// A batch of records as received: the schema name and the records in their
/// original order. No reordering is guaranteed downstream of this point.
#[derive(Debug, Clone, PartialEq, Eq)]
pub struct EventBatch {
    pub schema: String,
    pub data: Vec<EventData>,
}

/// The canonical field order of a record's payload encoding.
pub open spec fn record_fields(v: EventDataV) -> Seq<Option<Seq<char>>> {
    seq![
        Option::Some(v.e),
        Option::Some(v.eid),
        Option::Some(v.tv),
        Option::Some(v.tna),
        Option::Some(v.aid),
        Option::Some(v.p),
        Option::Some(v.cookie),
        v.cs,
        v.cx,
        Option::Some(v.lang),
        Option::Some(v.res),
        Option::Some(v.cd),
        Option::Some(v.tz),
        Option::Some(v.dtm),
        Option::Some(v.vp),
        Option::Some(v.ds),
        Option::Some(v.vid),
        Option::Some(v.sid),
        Option::Some(v.duid),
        v.refr,
        Option::Some(v.url),
        v.ue_pr,
        v.ue_px,
        v.co,
        Option::Some(v.stm),
    ]
}

/// A field sequence that is the image of some record: right length, every
/// required field present.
pub open spec fn record_fields_ok(fs: Seq<Option<Seq<char>>>) -> bool {
    &&& fs.len() == 25
    &&& fs[0] is Some
    &&& fs[1] is Some
    &&& fs[2] is Some
    &&& fs[3] is Some
    &&& fs[4] is Some
    &&& fs[5] is Some
    &&& fs[6] is Some
    &&& fs[9] is Some
    &&& fs[10] is Some
    &&& fs[11] is Some
    &&& fs[12] is Some
    &&& fs[13] is Some
    &&& fs[14] is Some
    &&& fs[15] is Some
    &&& fs[16] is Some
    &&& fs[17] is Some
    &&& fs[18] is Some
    &&& fs[20] is Some
    &&& fs[24] is Some
}

/// The record a well-formed field sequence denotes.
pub open spec fn record_of(fs: Seq<Option<Seq<char>>>) -> EventDataV
    recommends
        record_fields_ok(fs),
{
    EventDataV {
        e: fs[0]->0,
        eid: fs[1]->0,
        tv: fs[2]->0,
        tna: fs[3]->0,
        aid: fs[4]->0,
        p: fs[5]->0,
        cookie: fs[6]->0,
        cs: fs[7],
        cx: fs[8],
        lang: fs[9]->0,
        res: fs[10]->0,
        cd: fs[11]->0,
        tz: fs[12]->0,
        dtm: fs[13]->0,
        vp: fs[14]->0,
        ds: fs[15]->0,
        vid: fs[16]->0,
        sid: fs[17]->0,
        duid: fs[18]->0,
        refr: fs[19],
        url: fs[20]->0,
        ue_pr: fs[21],
        ue_px: fs[22],
        co: fs[23],
        stm: fs[24]->0,
    }
}

fn clone_opt(o: &Option<String>) -> (r: Option<String>)
    ensures
        r.deep_view() == o.deep_view(),
{
    match o {
        Option::None => None,
        Option::Some(s) => Some(s.clone()),
    }
}

/// A record's fields in their canonical payload order.
pub fn to_fields(r: &EventData) -> (out: Vec<Option<String>>)
    ensures
        out.deep_view() =~= record_fields(r@),
{
    let mut out: Vec<Option<String>> = Vec::new();
    out.push(Some(r.e.clone()));
    out.push(Some(r.eid.clone()));
    out.push(Some(r.tv.clone()));
    out.push(Some(r.tna.clone()));
    out.push(Some(r.aid.clone()));
    out.push(Some(r.p.clone()));
    out.push(Some(r.cookie.clone()));
    out.push(clone_opt(&r.cs));
    out.push(clone_opt(&r.cx));
    out.push(Some(r.lang.clone()));
    out.push(Some(r.res.clone()));
    out.push(Some(r.cd.clone()));
    out.push(Some(r.tz.clone()));
    out.push(Some(r.dtm.clone()));
    out.push(Some(r.vp.clone()));
    out.push(Some(r.ds.clone()));
    out.push(Some(r.vid.clone()));
    out.push(Some(r.sid.clone()));
    out.push(Some(r.duid.clone()));
    out.push(clone_opt(&r.refr));
    out.push(Some(r.url.clone()));
    out.push(clone_opt(&r.ue_pr));
    out.push(clone_opt(&r.ue_px));
    out.push(clone_opt(&r.co));
    out.push(Some(r.stm.clone()));
    out
}

/// The record a well-formed field sequence denotes; absent or extra fields
/// yield nothing.
pub fn from_fields(fs: &Vec<Option<String>>) -> (r: Option<EventData>)
    ensures
        r is Some <==> record_fields_ok(fs.deep_view()),
        r is Some ==> r.unwrap()@ == record_of(fs.deep_view()),
{
    if fs.len() != 25 {
        return None;
    }
    let e = match clone_opt(&fs[0]) {
        Some(s) => s,
        None => {
            return None;
        },
    };
    let eid = match clone_opt(&fs[1]) {
        Some(s) => s,
        None => {
            return None;
        },
    };
    let tv = match clone_opt(&fs[2]) {
        Some(s) => s,
        None => {
            return None;
        },
    };
    let tna = match clone_opt(&fs[3]) {
        Some(s) => s,
        None => {
            return None;
        },
    };
    let aid = match clone_opt(&fs[4]) {
        Some(s) => s,
        None => {
            return None;
        },
    };
    let p = match clone_opt(&fs[5]) {
        Some(s) => s,
        None => {
            return None;
        },
    };
    let cookie = match clone_opt(&fs[6]) {
        Some(s) => s,
        None => {
            return None;
        },
    };
    let cs = clone_opt(&fs[7]);
    let cx = clone_opt(&fs[8]);
    let lang = match clone_opt(&fs[9]) {
        Some(s) => s,
        None => {
            return None;
        },
    };
    let res = match clone_opt(&fs[10]) {
        Some(s) => s,
        None => {
            return None;
        },
    };
    let cd = match clone_opt(&fs[11]) {
        Some(s) => s,
        None => {
            return None;
        },
    };
    let tz = match clone_opt(&fs[12]) {
        Some(s) => s,
        None => {
            return None;
        },
    };
    let dtm = match clone_opt(&fs[13]) {
        Some(s) => s,
        None => {
            return None;
        },
    };
    let vp = match clone_opt(&fs[14]) {
        Some(s) => s,
        None => {
            return None;
        },
    };
    let ds = match clone_opt(&fs[15]) {
        Some(s) => s,
        None => {
            return None;
        },
    };
    let vid = match clone_opt(&fs[16]) {
        Some(s) => s,
        None => {
            return None;
        },
    };
    let sid = match clone_opt(&fs[17]) {
        Some(s) => s,
        None => {
            return None;
        },
    };
    let duid = match clone_opt(&fs[18]) {
        Some(s) => s,
        None => {
            return None;
        },
    };
    let refr = clone_opt(&fs[19]);
    let url = match clone_opt(&fs[20]) {
        Some(s) => s,
        None => {
            return None;
        },
    };
    let ue_pr = clone_opt(&fs[21]);
    let ue_px = clone_opt(&fs[22]);
    let co = clone_opt(&fs[23]);
    let stm = match clone_opt(&fs[24]) {
        Some(s) => s,
        None => {
            return None;
        },
    };
    let out = EventData {
        e,
        eid,
        tv,
        tna,
        aid,
        p,
        cookie,
        cs,
        cx,
        lang,
        res,
        cd,
        tz,
        dtm,
        vp,
        ds,
        vid,
        sid,
        duid,
        refr,
        url,
        ue_pr,
        ue_px,
        co,
        stm,
    };
    proof {
        assert(out@ =~= record_of(fs.deep_view()));
    }
    Some(out)
}

/// A record's canonical payload encoding.
pub open spec fn encode_record(v: EventDataV) -> Seq<u8> {
    enc_fields(record_fields(v))
}

/// Every field's UTF-8 encoding fits its 64-bit length prefix; true of every
/// record whose fields live in memory.
pub open spec fn record_fits(v: EventDataV) -> bool {
    fields_fit(record_fields(v))
}

/// What decoding a payload yields: the record whose encoding the buffer is,
/// if it is one.
pub open spec fn decode_record_spec(b: Seq<u8>) -> Option<EventDataV> {
    match parse_fields(b, 0, 25) {
        Option::Some((fs, pos)) => if pos == b.len() && record_fields_ok(fs) {
            Option::Some(record_of(fs))
        } else {
            Option::None
        },
        Option::None => Option::None,
    }
}

/// Serialize a record to its canonical payload encoding.
pub fn encode_event(r: &EventData) -> (out: Vec<u8>)
    ensures
        out@ == encode_record(r@),
{
    let fs = to_fields(r);
    let out = encode_fields(&fs);
    proof {
        assert(enc_fields(fs.deep_view()) == enc_fields(record_fields(r@)));
    }
    out
}

/// Deserialize a payload; yields the one record the buffer encodes, nothing
/// on any other buffer.
pub fn decode_event(b: &Vec<u8>) -> (r: Option<EventData>)
    ensures
        r is Some <==> decode_record_spec(b@) is Some,
        r is Some ==> r.unwrap()@ == decode_record_spec(b@).unwrap(),
{
    match decode_fields(b, 25) {
        None => None,
        Some(fs) => from_fields(&fs),
    }
}

/// Round trip: decoding the encoding of any record yields that record.
pub proof fn lemma_record_round_trip(v: EventDataV)
    requires
        record_fits(v),
    ensures
        decode_record_spec(encode_record(v)) == Option::Some(v),
{
    lemma_fields_round_trip(record_fields(v));
    assert(record_fields_ok(record_fields(v)));
    assert(record_of(record_fields(v)) =~= v);
}

} // verus!
