//! Rendering of the `EntityDetector.detect()` block for jobs that redact
//! sensitive data.
//!
//! The block turns the dataframe into a `DynamicFrame`, detects the entities
//! with a redacting action, turns the result back into a dataframe and drops
//! the metadata column. Its variables all begin with `_yard_pii_`.

use crate::text::{join, joined, views};
use vstd::prelude::*;

verus! {

/// The line that asks for the redaction of the entity at an index. All but the
/// last end in a comma.
pub open spec fn entity_line(entities: Seq<Seq<char>>, index: int) -> Seq<char> {
    "            \""@ + entities[index]
        + "\": [{\"action\": \"REDACT\", \"actionOptions\": {\"redactText\": \"****\"}}]"@ + if index
        + 1 < entities.len() {
        ","@
    } else {
        ""@
    }
}

/// One line for each entity, in order.
pub open spec fn entity_lines(entities: Seq<Seq<char>>) -> Seq<Seq<char>> {
    Seq::new(entities.len(), |index: int| entity_line(entities, index))
}

/// The lines of the masking block over the dataframe `var`.
pub open spec fn pii_lines(entities: Seq<Seq<char>>, var: Seq<char>) -> Seq<Seq<char>> {
    seq![
        "    _yard_pii_dyf = DynamicFrame.fromDF("@ + var + ", glueContext, \"_yard_pii\")"@,
        "    _yard_pii_dyf = EntityDetector.detect("@,
        "        _yard_pii_dyf,"@,
        "        {"@,
    ] + entity_lines(entities) + seq![
        "        },"@,
        "        \"DetectedEntities\""@,
        "    )"@,
        "    "@ + var + " = _yard_pii_dyf.toDF()"@,
        "    "@ + var + " = "@ + var + ".drop(\"DetectedEntities\")"@,
    ]
}

/// Renders the masking block for the given entity types.
pub fn render_pii(mask_pii: &[String], source_var: &str) -> (text: String)
    ensures
        text@ == joined(pii_lines(views(mask_pii@), source_var@), "\n"@),
{
    let ghost entities = views(mask_pii@);
    let mut lines: Vec<String> = Vec::new();
    lines.push(
        "    _yard_pii_dyf = DynamicFrame.fromDF(".to_owned().concat(source_var).concat(
            ", glueContext, \"_yard_pii\")",
        ),
    );
    lines.push("    _yard_pii_dyf = EntityDetector.detect(".to_owned());
    lines.push("        _yard_pii_dyf,".to_owned());
    lines.push("        {".to_owned());
    let ghost head = seq![
        "    _yard_pii_dyf = DynamicFrame.fromDF("@ + source_var@ + ", glueContext, \"_yard_pii\")"@,
        "    _yard_pii_dyf = EntityDetector.detect("@,
        "        _yard_pii_dyf,"@,
        "        {"@,
    ];
    proof {
        assert(views(lines@) =~= head);
    }
    let mut i: usize = 0;
    proof {
        assert(views(lines@) =~= head + entity_lines(entities).take(0));
    }
    while i < mask_pii.len()
        invariant
            i <= mask_pii.len(),
            entities == views(mask_pii@),
            views(lines@) == head + entity_lines(entities).take(i as int),
        decreases mask_pii.len() - i,
    {
        let comma: &str = if i + 1 < mask_pii.len() {
            ","
        } else {
            ""
        };
        let ghost before = lines@;
        let line: String = "            \"".to_owned().concat(mask_pii[i].as_str()).concat(
            "\": [{\"action\": \"REDACT\", \"actionOptions\": {\"redactText\": \"****\"}}]",
        ).concat(comma);
        lines.push(line);
        proof {
            assert(line@ == entity_line(entities, i as int));
            assert(views(lines@) =~= views(before).push(line@));
            assert(entity_lines(entities).take(i + 1) =~= entity_lines(entities).take(
                i as int,
            ).push(line@));
            assert(views(lines@) =~= head + entity_lines(entities).take(i + 1));
        }
        i = i + 1;
    }
    proof {
        assert(entity_lines(entities).take(i as int) =~= entity_lines(entities));
    }
    let ghost opened = lines@;
    lines.push("        },".to_owned());
    lines.push("        \"DetectedEntities\"".to_owned());
    lines.push("    )".to_owned());
    lines.push("    ".to_owned().concat(source_var).concat(" = _yard_pii_dyf.toDF()"));
    lines.push(
        "    ".to_owned().concat(source_var).concat(" = ").concat(source_var).concat(
            ".drop(\"DetectedEntities\")",
        ),
    );
    proof {
        let tail = seq![
            "        },"@,
            "        \"DetectedEntities\""@,
            "    )"@,
            "    "@ + source_var@ + " = _yard_pii_dyf.toDF()"@,
            "    "@ + source_var@ + " = "@ + source_var@ + ".drop(\"DetectedEntities\")"@,
        ];
        assert(views(lines@) =~= views(opened) + tail);
    }
    join(&lines, "\n")
}

} // verus!
