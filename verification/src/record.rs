//! One captured clipboard payload with what is derived from it.

use crate::bitmap::{decode_bitmap, decode_fault, is_preview_of, Preview, PreviewView};
use crate::digest::{digest, md5_of};
use crate::errors::DecodeFault;
use crate::format::Format;
use crate::text::{lemma_trimmed_empty, trim_text, trimmed};
use vstd::prelude::*;
use vstd::string::*;

verus! {

/// A captured payload: its format, its raw bytes, the digest of those bytes,
/// and the decoded text or preview.
#[derive(Debug)]
pub struct Data {
    data_type: Format,
    raw: Vec<u8>,
    md5: [u8; 16],
    data: Option<String>,
    img: Option<Preview>,
}

/// What a [`Data`] holds, as plain mathematical values.
pub struct DataView {
    pub format: Format,
    pub raw: Seq<u8>,
    pub digest: Seq<u8>,
    pub text: Option<Seq<char>>,
    pub preview: Option<PreviewView>,
}

/// The fault that capturing `raw` under `format` ends in, if any. Only a
/// bitmap can fail to decode.
pub open spec fn capture_fault(format: Format, raw: Seq<u8>) -> Option<DecodeFault> {
    if format == Format::Bitmap {
        decode_fault(raw)
    } else {
        None
    }
}

/// `preview` is what a capture of `raw` under `format` carries as its
/// picture: a preview of the bitmap, or nothing for text and for a payload
/// that does not decode.
pub open spec fn is_picture_of(format: Format, raw: Seq<u8>, preview: Option<PreviewView>) -> bool {
    if format == Format::Bitmap && decode_fault(raw) is None {
        preview matches Some(p) && is_preview_of(raw, p)
    } else {
        preview is None
    }
}

impl DataView {
    /// The record of a format of which nothing has been captured yet.
    pub open spec fn blank(format: Format) -> DataView {
        DataView {
            format,
            raw: Seq::empty(),
            digest: md5_of(Seq::empty()),
            text: None,
            preview: None,
        }
    }

    /// The digest is that of the raw bytes, and the picture is theirs.
    pub open spec fn wf(self) -> bool {
        &&& self.digest == md5_of(self.raw)
        &&& is_picture_of(self.format, self.raw, self.preview)
    }

    /// This record after its payload was replaced by `raw`, with the picture
    /// `preview` decoded from it. The format and the text stay.
    pub open spec fn with_raw(self, raw: Seq<u8>, preview: Option<PreviewView>) -> DataView {
        DataView { raw, digest: md5_of(raw), preview, ..self }
    }

    /// This record after `text` was captured for it.
    pub open spec fn with_text(self, text: Seq<char>) -> DataView {
        DataView { text: Some(trimmed(text)), ..self }
    }

    /// The text to show for this record: the captured text, or nothing.
    pub open spec fn shown_text(self) -> Seq<char> {
        match self.text {
            Some(t) => t,
            None => Seq::empty(),
        }
    }

    /// The picture to show for this record: its preview, or the empty one.
    pub open spec fn shown_image(self) -> PreviewView {
        match self.preview {
            Some(p) => p,
            None => PreviewView::empty(),
        }
    }
}

impl View for Data {
    type V = DataView;

    closed spec fn view(&self) -> DataView {
        DataView {
            format: self.data_type,
            raw: self.raw@,
            digest: self.md5@,
            text: match self.data {
                Some(s) => Some(s@),
                None => None,
            },
            preview: match self.img {
                Some(p) => Some(p@),
                None => None,
            },
        }
    }
}

impl Data {
    /// The invariant that every record keeps.
    #[verifier::type_invariant]
    pub open spec fn wf(&self) -> bool {
        self@.wf()
    }

    /// A record of the given format with an empty payload.
    pub fn new(data_type: Format) -> (record: Data)
        ensures
            record@ == DataView::blank(data_type),
            record.wf(),
    {
        let raw: Vec<u8> = Vec::new();
        let md5 = digest(&raw);
        Data { data_type, raw, md5, data: None, img: None }
    }

    /// Builds the record of one capture: `raw` read under `format`, with
    /// `text` as the clipboard's text where the format is a text format.
    ///
    /// Fails exactly where `format` is a bitmap that does not decode. A text
    /// record stores `text` trimmed, or the empty text where none was read; a
    /// bitmap record stores no text.
    pub fn build(format: Format, raw: Vec<u8>, text: Option<String>) -> (r: Result<
        Data,
        DecodeFault,
    >)
        ensures
            match r {
                Ok(record) => {
                    &&& capture_fault(format, raw@) is None
                    &&& record.wf()
                    &&& record@.format == format
                    &&& record@.raw == raw@
                    &&& record@.text == captured_text(format, text)
                },
                Err(fault) => capture_fault(format, raw@) == Some(fault),
            },
    {
        let mut record = Data::new(format);
        match record.set_raw(raw) {
            Ok(()) => {},
            Err(fault) => {
                return Err(fault);
            },
        }
        if format.is_text() {
            match text {
                Some(t) => record.set_data(t),
                None => record.set_data(String::new()),
            }
            proof {
                lemma_trimmed_empty();
            }
        }
        Ok(record)
    }

    /// Replaces the payload by `raw`, and with it the digest and, for a
    /// bitmap, the preview.
    ///
    /// Fails exactly where the record is a bitmap and `raw` does not decode;
    /// the record is then left as it was.
    pub fn set_raw(&mut self, raw: Vec<u8>) -> (r: Result<(), DecodeFault>)
        ensures
            match r {
                Ok(()) => {
                    &&& capture_fault(old(self)@.format, raw@) is None
                    &&& final(self)@ == old(self)@.with_raw(raw@, final(self)@.preview)
                    &&& is_picture_of(old(self)@.format, raw@, final(self)@.preview)
                    &&& final(self).wf()
                },
                Err(fault) => {
                    &&& capture_fault(old(self)@.format, raw@) == Some(fault)
                    &&& *final(self) == *old(self)
                },
            },
    {
        let img = match self.data_type {
            Format::Bitmap => {
                match decode_bitmap(&raw) {
                    Ok(preview) => Some(preview),
                    Err(fault) => {
                        return Err(fault);
                    },
                }
            },
            _ => None,
        };
        let md5 = digest(&raw);
        let data = match &self.data {
            Some(t) => Some(t.clone()),
            None => None,
        };
        *self = Data { data_type: self.data_type, raw, md5, data, img };
        Ok(())
    }

    /// Stores `data`, without the white space around it, as the text of the
    /// record.
    pub fn set_data(&mut self, data: String)
        ensures
            final(self)@ == old(self)@.with_text(data@),
            final(self).wf(),
    {
        proof {
            use_type_invariant(&*self);
        }
        self.data = Some(trim_text(data.as_str()));
    }

    /// A copy of the raw bytes.
    pub fn get_content(&self) -> (bytes: Vec<u8>)
        ensures
            bytes@ == self@.raw,
    {
        let bytes = self.raw.clone();
        assert(bytes@ =~= self.raw@);
        bytes
    }

    /// The digest of the raw bytes.
    pub fn get_md5(&self) -> (d: [u8; 16])
        ensures
            d@ == self@.digest,
    {
        self.md5
    }

    /// The format under which the payload was captured.
    pub fn get_type(&self) -> (format: Format)
        ensures
            format == self@.format,
    {
        self.data_type
    }

    /// The text of the record, empty where it has none.
    pub fn get_data(&self) -> (text: String)
        ensures
            text@ == self@.shown_text(),
    {
        match &self.data {
            Some(t) => t.clone(),
            None => String::new(),
        }
    }

    /// The preview of the record, empty where it has none.
    pub fn get_image(&self) -> (image: Preview)
        ensures
            image@ == self@.shown_image(),
    {
        match &self.img {
            Some(p) => p.duplicate(),
            None => Preview::empty(),
        }
    }

    /// A copy of this record.
    pub fn duplicate(&self) -> (record: Data)
        ensures
            record@ == self@,
            record.wf(),
    {
        proof {
            use_type_invariant(self);
        }
        let raw = self.raw.clone();
        assert(raw@ =~= self.raw@);
        Data {
            data_type: self.data_type,
            raw,
            md5: self.md5,
            data: match &self.data {
                Some(t) => Some(t.clone()),
                None => None,
            },
            img: match &self.img {
                Some(p) => Some(p.duplicate()),
                None => None,
            },
        }
    }
}

impl Clone for Data {
    fn clone(&self) -> (record: Data)
        ensures
            record@ == self@,
            record.wf(),
    {
        self.duplicate()
    }
}

/// The text that a capture under `format` stores when `text` was read from
/// the clipboard: for a text format the trimmed text, empty where none was
/// read; for a bitmap none.
pub open spec fn captured_text(format: Format, text: Option<String>) -> Option<Seq<char>> {
    if format.spec_is_text() {
        match text {
            Some(t) => Some(trimmed(t@)),
            None => Some(Seq::empty()),
        }
    } else {
        None
    }
}

} // verus!
