use codex_mylib::mylib::{book_hashcode, java_hashcode, MylibError};

#[test]
fn test_java_hashcode() {
    assert_eq!((2457 as i32), java_hashcode("Le".to_string()));
    assert_eq!((65282059 as i32), java_hashcode("Codex".to_string()));
    assert_eq!((816537616 as i32), java_hashcode("Guta-Sintram".to_string()));
    assert_eq!((100742 as i32), java_hashcode("est".to_string()));
    assert_eq!((3737 as i32), java_hashcode("un".to_string()));
    assert_eq!((109904722 as i32), java_hashcode("manuscrit".to_string()));
    assert_eq!((1974693833 as i32), java_hashcode("enluminé".to_string()));
    assert_eq!((3076146 as i32), java_hashcode("daté".to_string()));
    assert_eq!((3201 as i32), java_hashcode("de".to_string()));
    assert_eq!((1508543 as i32), java_hashcode("1154".to_string()));
    assert_eq!((-1197664643 as i32), java_hashcode("exécuté".to_string()));
    assert_eq!((224 as i32), java_hashcode("à".to_string()));
    assert_eq!((-1926557657 as i32), java_hashcode("l'abbaye".to_string()));
    assert_eq!((3201 as i32), java_hashcode("de".to_string()));
    assert_eq!((-1791335646 as i32), java_hashcode("Marbach".to_string()));
    assert_eq!((3241 as i32), java_hashcode("en".to_string()));
    assert_eq!((759338387 as i32), java_hashcode("Alsace.".to_string()));
    assert_eq!((76995002 as i32), java_hashcode("Peint".to_string()));
    assert_eq!((3075842 as i32), java_hashcode("dans".to_string()));
    assert_eq!((3449 as i32), java_hashcode("le".to_string()));
    assert_eq!((109780401 as i32), java_hashcode("style".to_string()));
    assert_eq!((-925389361 as i32), java_hashcode("roman,".to_string()));
    assert_eq!((3363 as i32), java_hashcode("il".to_string()));
    assert_eq!((100742 as i32), java_hashcode("est".to_string()));
    assert_eq!((-28034847 as i32), java_hashcode("actuellement".to_string()));
    assert_eq!((-568241327 as i32), java_hashcode("conservé".to_string()));
    assert_eq!((224 as i32), java_hashcode("à".to_string()));
    assert_eq!((3445 as i32), java_hashcode("la".to_string()));
    assert_eq!((1977356260 as i32), java_hashcode("Bibliothèque".to_string()));
    assert_eq!((3217 as i32), java_hashcode("du".to_string()));
    assert_eq!((69062892 as i32), java_hashcode("Grand".to_string()));
    assert_eq!((1713345047 as i32), java_hashcode("séminaire".to_string()));
    assert_eq!((3201 as i32), java_hashcode("de".to_string()));
    assert_eq!((2049634778 as i32), java_hashcode("Strasbourg".to_string()));
    assert_eq!((-347316087 as i32), java_hashcode("(Ms.37).".to_string()));
}

#[test]
fn test_book_hashcode() {
    assert_eq!(
        1663365717,
        book_hashcode(
            &"Japon, Miscellanées".to_string(),
            &vec![
                "Chantal DELTENRE".to_string(),
                "Maximilien DAUBER".to_string()
            ]
        )
        .unwrap()
    );

    assert_eq!(
        49491434,
        book_hashcode(
            &"Ainsi Parlait Zarathoustra".to_string(),
            &vec!["Friedrich Wilhelm Nietzsche".to_string()]
        )
        .unwrap()
    );

    assert_eq!(
        1763833006,
        book_hashcode(&"Alien Earth".to_string(), &vec!["Robin Hobb".to_string()]).unwrap()
    );

    assert_eq!(
        -1061641663,
        book_hashcode(
            &"Allez les mages !".to_string(),
            &vec!["Terry Pratchett".to_string()]
        )
        .unwrap()
    );

    assert_eq!(
        -1648148861,
        book_hashcode(&"Ally".to_string(), &vec!["Karen Traviss".to_string()]).unwrap()
    );

    assert_eq!(
        1397285980,
        book_hashcode(
            &"Va-t-en-guerre".to_string(),
            &vec!["Terry Pratchett".to_string()]
        )
        .unwrap()
    );

    assert_eq!(
        411805042,
        book_hashcode(
            &"Vision aveugle".to_string(),
            &vec!["Peter Watts".to_string()]
        )
        .unwrap()
    );

    assert_eq!(
        2094868745,
        book_hashcode(
            &"Vulture Peak".to_string(),
            &vec!["John Burdett".to_string()]
        )
        .unwrap()
    );

    assert_eq!(
        -1547775297,
        book_hashcode(&"Échopraxie".to_string(), &vec!["Peter Watts".to_string()]).unwrap()
    );

    assert_eq!(
        -1492802074,
        book_hashcode(&"Élévation".to_string(), &vec!["David Brin".to_string()]).unwrap()
    );
}

#[test]
fn book_hashcode_fails_without_author() {
    let r = book_hashcode(&"Ally".to_string(), &Vec::new());
    assert_eq!(r, Err(MylibError::MissingAuthor));
}
