use vstd::prelude::*;

verus! {

/// What a descriptor holds, as plain mathematical values.
pub struct DataTypeView {
    pub name: Seq<char>,
    pub stored_as: Seq<char>,
    pub output_as: Seq<char>,
    pub can_ref: bool,
    pub how_to_output: Seq<char>,
    pub exclude_from_froms: bool,
    pub how_to_convert: Seq<char>,
}

/// One variant of the value type: its tag, how it is stored, what extraction
/// hands back, and the policies that decide which conversions exist for it.
#[derive(Debug, Clone)]
pub struct DataType {
    pub name: String,
    pub stored_as: String,
    pub output_as: String,
    pub can_ref: bool,
    pub how_to_output: String,
    pub exclude_from_froms: bool,
    pub how_to_convert: String,
}

impl View for DataType {
    type V = DataTypeView;

    open spec fn view(&self) -> DataTypeView {
        DataTypeView {
            name: self.name@,
            stored_as: self.stored_as@,
            output_as: self.output_as@,
            can_ref: self.can_ref,
            how_to_output: self.how_to_output@,
            exclude_from_froms: self.exclude_from_froms,
            how_to_convert: self.how_to_convert@,
        }
    }
}

/// The descriptor that `DataType::new` builds: output equal to storage,
/// reference conversion allowed, extraction by clone, construction by identity.
pub open spec fn default_descriptor(name: Seq<char>, stored_as: Seq<char>) -> DataTypeView {
    DataTypeView {
        name,
        stored_as,
        output_as: stored_as,
        can_ref: true,
        how_to_output: "x.clone()"@,
        exclude_from_froms: false,
        how_to_convert: "newval"@,
    }
}

impl DataType {
    pub fn new(name: &str, stored_as: &str) -> (r: DataType)
        ensures
            r@ == default_descriptor(name@, stored_as@),
    {
        DataType {
            name: String::from_str(name),
            stored_as: String::from_str(stored_as),
            output_as: String::from_str(stored_as),
            can_ref: true,
            how_to_output: String::from_str("x.clone()"),
            exclude_from_froms: false,
            how_to_convert: String::from_str("newval"),
        }
    }

    pub fn can_ref(self, can_ref: bool) -> (r: DataType)
        ensures
            r@ == (DataTypeView { can_ref, ..self@ }),
    {
        let mut d = self;
        d.can_ref = can_ref;
        d
    }

    pub fn output_as(self, output_type: &str) -> (r: DataType)
        ensures
            r@ == (DataTypeView { output_as: output_type@, ..self@ }),
    {
        let mut d = self;
        d.output_as = String::from_str(output_type);
        d
    }

    pub fn how_to_output(self, how_to_output: &str) -> (r: DataType)
        ensures
            r@ == (DataTypeView { how_to_output: how_to_output@, ..self@ }),
    {
        let mut d = self;
        d.how_to_output = String::from_str(how_to_output);
        d
    }

    pub fn exclude_from_froms(self, exclude_from_froms: bool) -> (r: DataType)
        ensures
            r@ == (DataTypeView { exclude_from_froms, ..self@ }),
    {
        let mut d = self;
        d.exclude_from_froms = exclude_from_froms;
        d
    }

    pub fn how_to_convert(self, how_to_convert: &str) -> (r: DataType)
        ensures
            r@ == (DataTypeView { how_to_convert: how_to_convert@, ..self@ }),
    {
        let mut d = self;
        d.how_to_convert = String::from_str(how_to_convert);
        d
    }
}

} // verus!
