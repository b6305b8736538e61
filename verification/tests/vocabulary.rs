use gcz::vocabulary::{
    commit_types, decorate, filter_type_by_input, format_commit_type_with_emoji, CommitType,
};

fn names(filtered: &[(usize, CommitType)]) -> Vec<&'static str> {
    filtered.iter().map(|(_, entry)| entry.name).collect()
}

#[test]
fn should_filter() {
    let input = "f";
    let result = filter_type_by_input(input);
    let types = commit_types();
    let expected: Vec<(usize, CommitType)> = vec![
        (0, types[0]), // feat
        (1, types[1]), // fix
        (4, types[4]), // refactor
        (5, types[5]), // perf
    ];
    assert_eq!(result, expected);
}

#[test]
fn should_format_commit_type_with_emoji() {
    assert_eq!(format_commit_type_with_emoji("feat"), "✨ feat");
    assert_eq!(format_commit_type_with_emoji("fix"), "🐛 fix");
    assert_eq!(format_commit_type_with_emoji("docs"), "📚 docs");
    assert_eq!(format_commit_type_with_emoji("style"), "💎 style");
    assert_eq!(format_commit_type_with_emoji("refactor"), "♻️ refactor");
    assert_eq!(format_commit_type_with_emoji("perf"), "⚡ perf");
    assert_eq!(format_commit_type_with_emoji("test"), "🧪 test");
    assert_eq!(format_commit_type_with_emoji("ci"), "👷 ci");
    assert_eq!(format_commit_type_with_emoji("chore"), "🔧 chore");
}

#[test]
fn should_return_original_for_unknown_commit_type() {
    assert_eq!(format_commit_type_with_emoji("unknown"), "unknown");
}

#[test]
fn vocabulary_has_nine_entries_in_fixed_order() {
    let types = commit_types();
    let all: Vec<&str> = types.iter().map(|entry| entry.name).collect();
    assert_eq!(
        all,
        vec!["feat", "fix", "docs", "style", "refactor", "perf", "test", "ci", "chore"]
    );
    assert_eq!(types[4], CommitType { name: "refactor", emoji: "♻️" });
}

#[test]
fn filter_on_f_keeps_four_names_in_order() {
    assert_eq!(names(&filter_type_by_input("f")), vec!["feat", "fix", "refactor", "perf"]);
}

#[test]
fn filter_on_empty_query_keeps_everything() {
    let all = filter_type_by_input("");
    let types = commit_types();
    assert_eq!(all.len(), 9);
    for (position, (index, entry)) in all.iter().enumerate() {
        assert_eq!(*index, position);
        assert_eq!(*entry, types[position]);
    }
}

#[test]
fn filter_ignores_case() {
    assert_eq!(filter_type_by_input("F"), filter_type_by_input("f"));
    assert_eq!(names(&filter_type_by_input("FIX")), vec!["fix"]);
    assert_eq!(names(&filter_type_by_input("ReFaC")), vec!["refactor"]);
}

#[test]
fn filter_matches_inside_names() {
    assert_eq!(
        names(&filter_type_by_input("e")),
        vec!["feat", "style", "refactor", "perf", "test", "chore"]
    );
    assert_eq!(names(&filter_type_by_input("or")), vec!["refactor", "chore"]);
    assert_eq!(names(&filter_type_by_input("ci")), vec!["ci"]);
}

#[test]
fn filter_with_no_match_is_empty() {
    assert!(filter_type_by_input("zzz").is_empty());
    assert!(filter_type_by_input("feature").is_empty());
    assert!(filter_type_by_input("é").is_empty());
}

#[test]
fn filter_pairs_each_entry_with_its_position() {
    let types = commit_types();
    for (index, entry) in filter_type_by_input("t") {
        assert_eq!(entry, types[index]);
    }
    let positions: Vec<usize> = filter_type_by_input("t").iter().map(|pair| pair.0).collect();
    assert_eq!(positions, vec![0, 3, 4, 6]);
}

#[test]
fn decorate_puts_glyph_space_name() {
    let types = commit_types();
    assert_eq!(decorate(&types[0]), "✨ feat");
    assert_eq!(decorate(&CommitType { name: "wip", emoji: "🚧" }), "🚧 wip");
}

#[test]
fn format_is_exact_about_names() {
    assert_eq!(format_commit_type_with_emoji("Feat"), "Feat");
    assert_eq!(format_commit_type_with_emoji("fea"), "fea");
    assert_eq!(format_commit_type_with_emoji(""), "");
    assert_eq!(format_commit_type_with_emoji("✨ feat"), "✨ feat");
}
