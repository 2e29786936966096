use vstd::prelude::*;

verus! {

/// A rated external reference.
#[derive(Debug, Clone)]
pub struct Outside {
    pub uuid: String,
    pub name: String,
    pub context: String,
    pub url: String,
    pub percentage: i32,
}

/// A dated journal entry; `date` reads `YYYY-MM-DD HH:MM:SS`.
#[derive(Debug, Clone)]
pub struct Inside {
    pub uuid: String,
    pub date: String,
    pub context: String,
}

/// An outside record as it is exchanged: without its identifier.
#[derive(Debug, Clone)]
pub struct ExportOutside {
    pub name: String,
    pub context: String,
    pub url: String,
    pub percentage: i32,
}

/// An inside record as it is exchanged: without its identifier.
#[derive(Debug, Clone)]
pub struct ExportInside {
    pub date: String,
    pub context: String,
}

pub ghost struct OutsideView {
    pub uuid: Seq<char>,
    pub name: Seq<char>,
    pub context: Seq<char>,
    pub url: Seq<char>,
    pub percentage: i32,
}

pub ghost struct InsideView {
    pub uuid: Seq<char>,
    pub date: Seq<char>,
    pub context: Seq<char>,
}

pub ghost struct ExportOutsideView {
    pub name: Seq<char>,
    pub context: Seq<char>,
    pub url: Seq<char>,
    pub percentage: i32,
}

pub ghost struct ExportInsideView {
    pub date: Seq<char>,
    pub context: Seq<char>,
}

impl View for Outside {
    type V = OutsideView;

    open spec fn view(&self) -> OutsideView {
        OutsideView {
            uuid: self.uuid@,
            name: self.name@,
            context: self.context@,
            url: self.url@,
            percentage: self.percentage,
        }
    }
}

impl View for Inside {
    type V = InsideView;

    open spec fn view(&self) -> InsideView {
        InsideView { uuid: self.uuid@, date: self.date@, context: self.context@ }
    }
}

impl View for ExportOutside {
    type V = ExportOutsideView;

    open spec fn view(&self) -> ExportOutsideView {
        ExportOutsideView {
            name: self.name@,
            context: self.context@,
            url: self.url@,
            percentage: self.percentage,
        }
    }
}

impl View for ExportInside {
    type V = ExportInsideView;

    open spec fn view(&self) -> ExportInsideView {
        ExportInsideView { date: self.date@, context: self.context@ }
    }
}

/// The exchanged form of an outside record: its fields but the identifier.
pub open spec fn strip_outside(o: OutsideView) -> ExportOutsideView {
    ExportOutsideView { name: o.name, context: o.context, url: o.url, percentage: o.percentage }
}

/// The exchanged form of an inside record: its fields but the identifier.
pub open spec fn strip_inside(i: InsideView) -> ExportInsideView {
    ExportInsideView { date: i.date, context: i.context }
}

/// An outside record made of exchanged fields and an identifier.
pub open spec fn outside_with_id(uuid: Seq<char>, e: ExportOutsideView) -> OutsideView {
    OutsideView { uuid, name: e.name, context: e.context, url: e.url, percentage: e.percentage }
}

/// An inside record made of exchanged fields and an identifier.
pub open spec fn inside_with_id(uuid: Seq<char>, e: ExportInsideView) -> InsideView {
    InsideView { uuid, date: e.date, context: e.context }
}

pub open spec fn outsides_view(v: Seq<Outside>) -> Seq<OutsideView> {
    v.map_values(|o: Outside| o@)
}

pub open spec fn insides_view(v: Seq<Inside>) -> Seq<InsideView> {
    v.map_values(|i: Inside| i@)
}

pub open spec fn export_outsides_view(v: Seq<ExportOutside>) -> Seq<ExportOutsideView> {
    v.map_values(|o: ExportOutside| o@)
}

pub open spec fn export_insides_view(v: Seq<ExportInside>) -> Seq<ExportInsideView> {
    v.map_values(|i: ExportInside| i@)
}

pub open spec fn strip_outsides(s: Seq<OutsideView>) -> Seq<ExportOutsideView> {
    s.map_values(|o: OutsideView| strip_outside(o))
}

pub open spec fn strip_insides(s: Seq<InsideView>) -> Seq<ExportInsideView> {
    s.map_values(|i: InsideView| strip_inside(i))
}

impl Outside {
    /// A field-by-field copy.
    pub fn duplicate(&self) -> (r: Outside)
        ensures
            r@ == self@,
    {
        Outside {
            uuid: self.uuid.clone(),
            name: self.name.clone(),
            context: self.context.clone(),
            url: self.url.clone(),
            percentage: self.percentage,
        }
    }

    /// The record without its identifier.
    pub fn to_export(&self) -> (r: ExportOutside)
        ensures
            r@ == strip_outside(self@),
    {
        ExportOutside {
            name: self.name.clone(),
            context: self.context.clone(),
            url: self.url.clone(),
            percentage: self.percentage,
        }
    }
}

impl Inside {
    /// A field-by-field copy.
    pub fn duplicate(&self) -> (r: Inside)
        ensures
            r@ == self@,
    {
        Inside { uuid: self.uuid.clone(), date: self.date.clone(), context: self.context.clone() }
    }

    /// The record without its identifier.
    pub fn to_export(&self) -> (r: ExportInside)
        ensures
            r@ == strip_inside(self@),
    {
        ExportInside { date: self.date.clone(), context: self.context.clone() }
    }
}

impl ExportOutside {
    /// A field-by-field copy.
    pub fn duplicate(&self) -> (r: ExportOutside)
        ensures
            r@ == self@,
    {
        ExportOutside {
            name: self.name.clone(),
            context: self.context.clone(),
            url: self.url.clone(),
            percentage: self.percentage,
        }
    }

    /// The stored record made of these fields and the identifier `uuid`.
    pub fn with_id(self, uuid: String) -> (r: Outside)
        ensures
            r@ == outside_with_id(uuid@, self@),
    {
        Outside {
            uuid,
            name: self.name,
            context: self.context,
            url: self.url,
            percentage: self.percentage,
        }
    }
}

impl ExportInside {
    /// A field-by-field copy.
    pub fn duplicate(&self) -> (r: ExportInside)
        ensures
            r@ == self@,
    {
        ExportInside { date: self.date.clone(), context: self.context.clone() }
    }

    /// The stored record made of these fields and the identifier `uuid`.
    pub fn with_id(self, uuid: String) -> (r: Inside)
        ensures
            r@ == inside_with_id(uuid@, self@),
    {
        Inside { uuid, date: self.date, context: self.context }
    }
}

} // verus!
