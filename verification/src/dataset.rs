//! The embedded dataset: a GeoJSON feature collection of bicycle-parking
//! locations, compiled into the library so the program carries no runtime
//! file dependency. The loader parses it once at startup; a malformed
//! document is a packaging defect and is fatal.

use vstd::prelude::*;

verus! {

/// The text of the embedded dataset, character for character: the
/// document `dataset_document` is bound to supply.
pub open spec fn spec_dataset_text() -> Seq<char> {
    "{\n  \"type\": \"FeatureCollection\",\n  \"features\": [\n    {\n      \"type\": \"Feature\",\n      \"properties\": { \"site_id\": \"B001\" },\n      \"geometry\": { \"type\": \"Point\", \"coordinates\": [-73.917, 40.684] }\n    },\n    {\n      \"type\": \"Feature\",\n      \"properties\": { \"site_id\": \"B002\" },\n      \"geometry\": { \"type\": \"Point\", \"coordinates\": [-73.9094, 40.6901] }\n    },\n    {\n      \"type\": \"Feature\",\n      \"properties\": { \"site_id\": \"B003\" },\n      \"geometry\": { \"type\": \"Point\", \"coordinates\": [-73.921, 40.693] }\n    },\n    {\n      \"type\": \"Feature\",\n      \"properties\": { \"site_id\": \"B004\" },\n      \"geometry\": { \"type\": \"Point\", \"coordinates\": [-73.9005, 40.6855] }\n    },\n    {\n      \"type\": \"Feature\",\n      \"properties\": { \"site_id\": \"B005\" },\n      \"geometry\": { \"type\": \"Point\", \"coordinates\": [-73.9252, 40.679] }\n    }\n  ]\n}\n"@
}

/// The bicycle-parking dataset as a GeoJSON feature-collection document:
/// exactly the text of `spec_dataset_text`, and not empty.
pub fn dataset_document() -> (s: &'static str)
    ensures
        s@ == spec_dataset_text(),
        s@.len() > 0,
{
    proof {
        reveal_strlit(
            "{\n  \"type\": \"FeatureCollection\",\n  \"features\": [\n    {\n      \"type\": \"Feature\",\n      \"properties\": { \"site_id\": \"B001\" },\n      \"geometry\": { \"type\": \"Point\", \"coordinates\": [-73.917, 40.684] }\n    },\n    {\n      \"type\": \"Feature\",\n      \"properties\": { \"site_id\": \"B002\" },\n      \"geometry\": { \"type\": \"Point\", \"coordinates\": [-73.9094, 40.6901] }\n    },\n    {\n      \"type\": \"Feature\",\n      \"properties\": { \"site_id\": \"B003\" },\n      \"geometry\": { \"type\": \"Point\", \"coordinates\": [-73.921, 40.693] }\n    },\n    {\n      \"type\": \"Feature\",\n      \"properties\": { \"site_id\": \"B004\" },\n      \"geometry\": { \"type\": \"Point\", \"coordinates\": [-73.9005, 40.6855] }\n    },\n    {\n      \"type\": \"Feature\",\n      \"properties\": { \"site_id\": \"B005\" },\n      \"geometry\": { \"type\": \"Point\", \"coordinates\": [-73.9252, 40.679] }\n    }\n  ]\n}\n",
        );
    }
    "{\n  \"type\": \"FeatureCollection\",\n  \"features\": [\n    {\n      \"type\": \"Feature\",\n      \"properties\": { \"site_id\": \"B001\" },\n      \"geometry\": { \"type\": \"Point\", \"coordinates\": [-73.917, 40.684] }\n    },\n    {\n      \"type\": \"Feature\",\n      \"properties\": { \"site_id\": \"B002\" },\n      \"geometry\": { \"type\": \"Point\", \"coordinates\": [-73.9094, 40.6901] }\n    },\n    {\n      \"type\": \"Feature\",\n      \"properties\": { \"site_id\": \"B003\" },\n      \"geometry\": { \"type\": \"Point\", \"coordinates\": [-73.921, 40.693] }\n    },\n    {\n      \"type\": \"Feature\",\n      \"properties\": { \"site_id\": \"B004\" },\n      \"geometry\": { \"type\": \"Point\", \"coordinates\": [-73.9005, 40.6855] }\n    },\n    {\n      \"type\": \"Feature\",\n      \"properties\": { \"site_id\": \"B005\" },\n      \"geometry\": { \"type\": \"Point\", \"coordinates\": [-73.9252, 40.679] }\n    }\n  ]\n}\n"
}

} // verus!
