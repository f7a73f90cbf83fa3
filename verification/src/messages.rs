//! The translation table: Chinese source text to translation key.

use vstd::prelude::*;

verus! {

/// The table, as a finite map from source text to key.
pub open spec fn translation_table() -> Map<Seq<char>, Seq<char>> {
    map![
        "附件管理"@ => "attachmentManagement"@,
        "简历内容"@ => "resumeContent"@,
    ]
}

/// The key recorded for `zh_text`, if the table has one.
pub open spec fn en_key(zh_text: Seq<char>) -> Option<Seq<char>> {
    if translation_table().contains_key(zh_text) {
        Some(translation_table()[zh_text])
    } else {
        None
    }
}

/// The table holds exactly its two entries.
pub proof fn lemma_table_entries()
    ensures
        forall|zh_text: Seq<char>| #[trigger]
            translation_table().contains_key(zh_text) <==> zh_text == "附件管理"@ || zh_text
                == "简历内容"@,
        translation_table()["附件管理"@] == "attachmentManagement"@,
        translation_table()["简历内容"@] == "resumeContent"@,
        en_key("附件管理"@) == Some("attachmentManagement"@),
        en_key("简历内容"@) == Some("resumeContent"@),
{
    reveal_strlit("附件管理");
    reveal_strlit("简历内容");
    assert("附件管理"@[0] != "简历内容"@[0]);
}

/// No key of the table is itself a source text of the table.
pub proof fn lemma_keys_are_not_source_texts()
    ensures
        forall|zh_text: Seq<char>|
            translation_table().contains_key(zh_text) ==> !translation_table().contains_key(
                #[trigger] translation_table()[zh_text],
            ),
{
    lemma_table_entries();
    reveal_strlit("附件管理");
    reveal_strlit("简历内容");
    reveal_strlit("attachmentManagement");
    reveal_strlit("resumeContent");
    assert("attachmentManagement"@.len() == 20 && "resumeContent"@.len() == 13);
}

} // verus!
