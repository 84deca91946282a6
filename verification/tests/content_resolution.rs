use file_source::{
    Asset, AssetContent, ContentError, FileContent, FileSource, FileSystemEntryType, LinkContent,
    LinkType, PathState,
};

#[test]
fn regular_file_resolves_to_its_bytes() {
    let source = FileSource::new(String::from("/proj/src/a.txt"));
    let state = PathState::File(b"hello".to_vec());
    let content = source.content(&state);
    assert_eq!(
        content,
        Ok(AssetContent::File(FileContent::Present(b"hello".to_vec())))
    );
}

#[test]
fn absent_path_resolves_to_not_found_without_error() {
    let source = FileSource::new(String::from("/proj/src/missing.txt"));
    let state = PathState::NotFound;
    let content = source.content(&state);
    assert!(content.is_ok());
    assert_eq!(content, Ok(AssetContent::File(FileContent::NotFound)));
}

#[test]
fn symlink_resolves_to_redirect() {
    let source = FileSource::new(String::from("/proj/src/link.txt"));
    let state = PathState::Symlink(LinkContent::Link {
        target: String::from("./a.txt"),
        link_type: LinkType::Relative,
    });
    let content = source.content(&state);
    assert_eq!(
        content,
        Ok(AssetContent::Redirect {
            target: String::from("./a.txt"),
            link_type: LinkType::Relative,
        })
    );
}

#[test]
fn directory_fails_with_invalid_file_type() {
    let source = FileSource::new(String::from("/proj/src"));
    let state = PathState::Directory;
    let content = source.content(&state);
    assert_eq!(
        content,
        Err(ContentError::InvalidFileType(FileSystemEntryType::Directory))
    );
}

#[test]
fn other_entry_kind_fails_with_invalid_file_type() {
    let source = FileSource::new(String::from("/dev/null"));
    let state = PathState::Other;
    let content = source.content(&state);
    assert_eq!(
        content,
        Err(ContentError::InvalidFileType(FileSystemEntryType::Other))
    );
}

#[test]
fn unreadable_symlink_fails_with_invalid_symlink() {
    let source = FileSource::new(String::from("/proj/src/broken-link"));
    let state = PathState::Symlink(LinkContent::Invalid);
    let content = source.content(&state);
    assert_eq!(content, Err(ContentError::InvalidSymlink));
}

#[test]
fn absolute_symlink_keeps_its_link_type() {
    let source = FileSource::new(String::from("/proj/src/abs-link"));
    let state = PathState::Symlink(LinkContent::Link {
        target: String::from("/proj/src/a.txt"),
        link_type: LinkType::Absolute,
    });
    let content = source.content(&state);
    assert_eq!(
        content,
        Ok(AssetContent::Redirect {
            target: String::from("/proj/src/a.txt"),
            link_type: LinkType::Absolute,
        })
    );
}

#[test]
fn empty_file_is_distinct_from_absent_file() {
    let source = FileSource::new(String::from("/proj/src/empty.txt"));
    let present_empty = source.content(&PathState::File(Vec::new()));
    let absent = source.content(&PathState::NotFound);
    assert_eq!(
        present_empty,
        Ok(AssetContent::File(FileContent::Present(Vec::new())))
    );
    assert_eq!(absent, Ok(AssetContent::File(FileContent::NotFound)));
    assert_ne!(present_empty, absent);
}

#[test]
fn repeated_resolution_is_idempotent() {
    let source = FileSource::new(String::from("/proj/src/a.txt"));
    let state = PathState::File(b"hello".to_vec());
    let first = source.content(&state);
    let second = source.content(&state);
    assert_eq!(first, second);

    let link_state = PathState::Symlink(LinkContent::Link {
        target: String::from("./a.txt"),
        link_type: LinkType::Relative,
    });
    assert_eq!(source.content(&link_state), source.content(&link_state));
    assert_eq!(
        source.content(&PathState::NotFound),
        source.content(&PathState::NotFound)
    );
    assert_eq!(
        source.content(&PathState::Directory),
        source.content(&PathState::Directory)
    );
}

#[test]
fn references_are_empty_for_every_content_outcome() {
    let states = vec![
        (String::from("/proj/src/a.txt"), PathState::File(b"hello".to_vec())),
        (String::from("/proj/src/missing.txt"), PathState::NotFound),
        (
            String::from("/proj/src/link.txt"),
            PathState::Symlink(LinkContent::Link {
                target: String::from("./a.txt"),
                link_type: LinkType::Relative,
            }),
        ),
        (String::from("/proj/src"), PathState::Directory),
    ];
    for (path, state) in states {
        let source = FileSource::new(path);
        let _ = source.content(&state);
        assert!(source.references().is_empty());
    }
}
