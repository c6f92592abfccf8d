use rusty_php::symbols::{
    link_table, required_symbols, LoadError, SYMBOL_COUNT, SYM_PHP_MODULE_STARTUP,
    SYM_SAPI_STARTUP, SYM_ZEND_EVAL_STRING_EX,
};

#[test]
fn manifest_lists_every_entry_point() {
    let names = required_symbols();
    assert_eq!(names.len(), SYMBOL_COUNT);
    assert_eq!(names[0], "php_request_startup");
    assert_eq!(names[SYM_PHP_MODULE_STARTUP], "php_module_startup");
    assert_eq!(names[SYM_SAPI_STARTUP], "sapi_startup");
    assert_eq!(names[SYM_ZEND_EVAL_STRING_EX], "zend_eval_string_ex");
    assert_eq!(names[SYMBOL_COUNT - 1], "zend_known_strings");
}

#[test]
fn linking_populates_the_whole_table() {
    let addrs: Vec<Option<usize>> = (0..SYMBOL_COUNT).map(|i| Some(0x1000 + i)).collect();
    let table = link_table(&addrs).expect("every symbol resolved");
    for (i, a) in addrs.iter().enumerate() {
        assert_eq!(table.addr(i), a.unwrap());
    }
}

#[test]
fn linking_names_the_first_unresolved_symbol() {
    let mut addrs: Vec<Option<usize>> = (0..SYMBOL_COUNT).map(|i| Some(0x1000 + i)).collect();
    addrs[SYM_SAPI_STARTUP] = None;
    addrs[SYM_ZEND_EVAL_STRING_EX] = None;
    match link_table(&addrs) {
        Ok(_) => panic!("an unresolved symbol is a hard load error"),
        Err(LoadError::UnresolvedSymbol(i)) => assert_eq!(i, SYM_SAPI_STARTUP),
    }
}
