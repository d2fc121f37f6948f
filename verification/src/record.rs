use vstd::prelude::*;

verus! {

/// Mathematical view of one DNS record as the provider reports it.
pub ghost struct RecordModel {
    pub id: Seq<char>,
    pub cf_type: Seq<char>,
    pub name: Seq<char>,
    pub content: Seq<char>,
}

/// The record model with every field empty: what a fetch falls back to
/// when the provider has no matching record.
pub open spec fn empty_record_model() -> RecordModel {
    RecordModel {
        id: Seq::<char>::empty(),
        cf_type: Seq::<char>::empty(),
        name: Seq::<char>::empty(),
        content: Seq::<char>::empty(),
    }
}

/// The provider's view of one address record: identifier, record type,
/// name and current content (an IP address string).
#[derive(Debug)]
pub struct CloudflareDNSRecord {
    pub id: String,
    pub cf_type: String,
    pub name: String,
    pub content: String,
}

impl View for CloudflareDNSRecord {
    type V = RecordModel;

    open spec fn view(&self) -> RecordModel {
        RecordModel {
            id: self.id@,
            cf_type: self.cf_type@,
            name: self.name@,
            content: self.content@,
        }
    }
}

impl DeepView for CloudflareDNSRecord {
    type V = RecordModel;

    open spec fn deep_view(&self) -> RecordModel {
        self.view()
    }
}

impl Clone for CloudflareDNSRecord {
    fn clone(&self) -> (r: Self)
        ensures
            r@ == self@,
    {
        CloudflareDNSRecord {
            id: self.id.clone(),
            cf_type: self.cf_type.clone(),
            name: self.name.clone(),
            content: self.content.clone(),
        }
    }
}

impl Default for CloudflareDNSRecord {
    /// The zero-value record: every field is the empty string.
    fn default() -> (r: Self)
        ensures
            r@ == empty_record_model(),
    {
        CloudflareDNSRecord {
            id: String::new(),
            cf_type: String::new(),
            name: String::new(),
            content: String::new(),
        }
    }
}

/// Mathematical view of one provider-reported error.
pub ghost struct ProviderErrorModel {
    pub code: int,
    pub message: Seq<char>,
}

/// One entry of the provider envelope's error list.
#[derive(Debug)]
pub struct CloudflareError {
    pub code: i64,
    pub message: String,
}

impl View for CloudflareError {
    type V = ProviderErrorModel;

    open spec fn view(&self) -> ProviderErrorModel {
        ProviderErrorModel { code: self.code as int, message: self.message@ }
    }
}

impl DeepView for CloudflareError {
    type V = ProviderErrorModel;

    open spec fn deep_view(&self) -> ProviderErrorModel {
        self.view()
    }
}

/// Mathematical view of a provider response envelope.
pub ghost struct RespModel {
    pub success: bool,
    pub result: Option<Seq<RecordModel>>,
    pub errors: Seq<ProviderErrorModel>,
}

/// The provider's response envelope for record-collection queries:
/// a success flag, an optional list of matching records, and a list of
/// provider-reported errors.
#[derive(Debug)]
pub struct CloudflareResp {
    pub success: bool,
    pub result: Option<Vec<CloudflareDNSRecord>>,
    pub errors: Vec<CloudflareError>,
}

impl View for CloudflareResp {
    type V = RespModel;

    open spec fn view(&self) -> RespModel {
        RespModel {
            success: self.success,
            result: match self.result {
                Some(records) => Some(records.deep_view()),
                None => None,
            },
            errors: self.errors.deep_view(),
        }
    }
}

} // verus!
