use sqlx_core::database::Postgres;
use sqlx_core::decode::{Decode, DecodeError};
use sqlx_core::encode::{Encode, IsNull};
use sqlx_core::error::Error;
use sqlx_core::executor::Execute;
use sqlx_core::postgres::arguments::PgArguments;
use sqlx_core::postgres::describe::{
    catalog_type_query, handle_row_description, DescribeOutcome, PgField, TypeCache,
    TypeResolution,
};
use sqlx_core::postgres::row::{PgRow, PgStatement};
use sqlx_core::postgres::type_info::PgTypeInfo;
use sqlx_core::postgres::value::{PgValue, PgValueFormat, PgValueRef};

fn binary_value(bytes: Vec<u8>, type_info: PgTypeInfo) -> PgValue {
    PgValue { value: Some(bytes), type_info, format: PgValueFormat::Binary }
}

fn text_value(bytes: Vec<u8>, type_info: PgTypeInfo) -> PgValue {
    PgValue { value: Some(bytes), type_info, format: PgValueFormat::Text }
}

fn null_value(type_info: PgTypeInfo) -> PgValue {
    PgValue { value: None, type_info, format: PgValueFormat::Binary }
}

#[test]
fn it_encodes_length_prefixed_arguments() {
    // binding `42` for `SELECT $1`: a 4-byte big-endian length, then
    // the 4-byte big-endian payload
    let mut args = PgArguments::new();
    args.add(42i32);
    assert_eq!(args.buffer, vec![0, 0, 0, 4, 0, 0, 0, 42]);
    assert_eq!(args.types.len(), 1);
    assert_eq!(args.types[0].id, Some(23));
    assert_eq!(args.types[0].name, "INT4");
}

#[test]
fn it_encodes_none_as_null_marker() {
    // encoding Option::<i32>::None writes length -1 and no payload
    let mut args = PgArguments::new();
    args.add(Option::<i32>::None);
    assert_eq!(args.buffer, vec![0xff, 0xff, 0xff, 0xff]);
    assert_eq!(args.types.len(), 1);
}

#[test]
fn it_encodes_several_values_in_order() {
    let mut args = PgArguments::new();
    args.add(1i16);
    args.add(true);
    args.add(String::from("hi"));
    assert_eq!(
        args.buffer,
        vec![0, 0, 0, 2, 0, 1, 0, 0, 0, 1, 1, 0, 0, 0, 2, b'h', b'i']
    );
}

#[test]
fn it_can_query_scalar() {
    // the backend echoes `SELECT 42` in binary format
    let value = binary_value(vec![0, 0, 0, 42], PgTypeInfo::try_from_id(23).unwrap());
    let decoded: i32 = <i32 as Decode<Postgres>>::decode(value.as_ref()).unwrap();
    assert_eq!(decoded, 42);

    // `SELECT NULL` into an Option is None
    let null = null_value(PgTypeInfo::try_from_id(23).unwrap());
    let decoded: Option<i32> =
        <Option<i32> as Decode<Postgres>>::decode(null.as_ref()).unwrap();
    assert_eq!(decoded, None);

    // `SELECT 42::bigint`
    let value = binary_value(vec![0, 0, 0, 0, 0, 0, 0, 42], PgTypeInfo::try_from_id(20).unwrap());
    let decoded: i64 = <i64 as Decode<Postgres>>::decode(value.as_ref()).unwrap();
    assert_eq!(decoded, 42);
}

#[test]
fn it_rejects_null_for_non_optional_types() {
    let null = null_value(PgTypeInfo::try_from_id(23).unwrap());
    let decoded = <i32 as Decode<Postgres>>::decode(null.as_ref());
    assert!(matches!(decoded, Err(DecodeError::UnexpectedNull(_))));

    let null = null_value(PgTypeInfo::try_from_id(25).unwrap());
    let decoded = <String as Decode<Postgres>>::decode(null.as_ref());
    assert!(matches!(decoded, Err(DecodeError::UnexpectedNull(_))));
}

#[test]
fn it_decodes_integers_from_text_format() {
    let t = PgTypeInfo::try_from_id(23).unwrap();
    let v = text_value(b"123".to_vec(), t.clone());
    assert_eq!(<i32 as Decode<Postgres>>::decode(v.as_ref()).unwrap(), 123);

    let v = text_value(b"-2147483648".to_vec(), t.clone());
    assert_eq!(<i32 as Decode<Postgres>>::decode(v.as_ref()).unwrap(), -2147483648);

    // one past the 32-bit range
    let v = text_value(b"2147483648".to_vec(), t.clone());
    assert!(matches!(
        <i32 as Decode<Postgres>>::decode(v.as_ref()),
        Err(DecodeError::InvalidInt)
    ));

    // malformed text
    let v = text_value(b"definitely not a number".to_vec(), t.clone());
    assert!(matches!(
        <i32 as Decode<Postgres>>::decode(v.as_ref()),
        Err(DecodeError::InvalidInt)
    ));

    // leading zeros and an explicit sign are fine
    let v = text_value(b"+000123".to_vec(), t.clone());
    assert_eq!(<i32 as Decode<Postgres>>::decode(v.as_ref()).unwrap(), 123);

    // far past the 64-bit range
    let t8 = PgTypeInfo::try_from_id(20).unwrap();
    let v = text_value(b"99999999999999999999999".to_vec(), t8);
    assert!(matches!(
        <i64 as Decode<Postgres>>::decode(v.as_ref()),
        Err(DecodeError::InvalidInt)
    ));
}

#[test]
fn it_decodes_booleans() {
    let t = PgTypeInfo::try_from_id(16).unwrap();
    let v = binary_value(vec![1], t.clone());
    assert_eq!(<bool as Decode<Postgres>>::decode(v.as_ref()).unwrap(), true);
    let v = binary_value(vec![0], t.clone());
    assert_eq!(<bool as Decode<Postgres>>::decode(v.as_ref()).unwrap(), false);
    let v = text_value(b"t".to_vec(), t.clone());
    assert_eq!(<bool as Decode<Postgres>>::decode(v.as_ref()).unwrap(), true);
    let v = text_value(b"f".to_vec(), t.clone());
    assert_eq!(<bool as Decode<Postgres>>::decode(v.as_ref()).unwrap(), false);
    let v = text_value(b"x".to_vec(), t.clone());
    assert!(matches!(
        <bool as Decode<Postgres>>::decode(v.as_ref()),
        Err(DecodeError::InvalidBool)
    ));
}

#[test]
fn it_round_trips_an_encoded_value() {
    // encode, pretend the backend echoed the payload, decode
    let mut args = PgArguments::new();
    let x = -123456i32;
    args.add(x);
    let payload = args.buffer[4..].to_vec();
    let value = binary_value(payload, PgTypeInfo::try_from_id(23).unwrap());
    assert_eq!(<i32 as Decode<Postgres>>::decode(value.as_ref()).unwrap(), x);

    let mut args = PgArguments::new();
    let s = String::from("this is a test");
    args.add(s.clone());
    let payload = args.buffer[4..].to_vec();
    let value = binary_value(payload, PgTypeInfo::try_from_id(25).unwrap());
    assert_eq!(<String as Decode<Postgres>>::decode(value.as_ref()).unwrap(), s);
}

#[test]
fn it_round_trips_the_smaller_host_types() {
    let mut args = PgArguments::new();
    args.add(-7i16);
    let value = binary_value(args.buffer[4..].to_vec(), PgTypeInfo::try_from_id(21).unwrap());
    assert_eq!(<i16 as Decode<Postgres>>::decode(value.as_ref()).unwrap(), -7);

    let mut args = PgArguments::new();
    args.add(true);
    let value = binary_value(args.buffer[4..].to_vec(), PgTypeInfo::try_from_id(16).unwrap());
    assert_eq!(<bool as Decode<Postgres>>::decode(value.as_ref()).unwrap(), true);

    let mut args = PgArguments::new();
    args.add(-90i8);
    let value = binary_value(args.buffer[4..].to_vec(), PgTypeInfo::try_from_id(18).unwrap());
    assert_eq!(<i8 as Decode<Postgres>>::decode(value.as_ref()).unwrap(), -90);

    let mut args = PgArguments::new();
    args.add(-6_000_000_000i64);
    let value = binary_value(args.buffer[4..].to_vec(), PgTypeInfo::try_from_id(20).unwrap());
    assert_eq!(<i64 as Decode<Postgres>>::decode(value.as_ref()).unwrap(), -6_000_000_000);

    let mut args = PgArguments::new();
    args.add(4_000_000_000u32);
    let value = binary_value(args.buffer[4..].to_vec(), PgTypeInfo::try_from_id(26).unwrap());
    assert_eq!(<u32 as Decode<Postgres>>::decode(value.as_ref()).unwrap(), 4_000_000_000);
}

#[test]
fn it_decodes_utf8_text() {
    let t = PgTypeInfo::try_from_id(25).unwrap();
    // a euro sign: three UTF-8 bytes, one character
    let v = binary_value(vec![0xe2, 0x82, 0xac], t.clone());
    let r = v.as_ref();
    assert_eq!(r.as_str().unwrap(), "\u{20ac}");

    let v = binary_value(vec![0xff], t.clone());
    assert!(matches!(v.as_ref().as_str(), Err(DecodeError::InvalidUtf8)));
}

#[test]
fn it_detaches_borrowed_values() {
    let bytes = vec![0, 0, 0, 7];
    let t = PgTypeInfo::try_from_id(23).unwrap();
    let borrowed = PgValueRef {
        value: Some(&bytes),
        type_info: t,
        format: PgValueFormat::Binary,
    };
    assert!(!borrowed.is_null());
    assert_eq!(borrowed.as_bytes().unwrap(), &bytes);
    let owned: PgValue = borrowed.to_owned();
    assert_eq!(owned.value, Some(bytes));
}

fn two_column_row() -> PgRow {
    let columns = vec![
        sqlx_core::postgres::row::PgColumn {
            name: String::from("id"),
            type_info: PgTypeInfo::try_from_id(23).unwrap(),
            relation_id: None,
            relation_attribute_no: None,
        },
        sqlx_core::postgres::row::PgColumn {
            name: String::from("name"),
            type_info: PgTypeInfo::try_from_id(25).unwrap(),
            relation_id: None,
            relation_attribute_no: None,
        },
    ];
    let column_names = vec![(String::from("id"), 0), (String::from("name"), 1)];
    PgRow {
        data: vec![Some(vec![0, 0, 0, 5]), Some(b"Hello World".to_vec())],
        format: PgValueFormat::Binary,
        statement: PgStatement { columns, column_names },
    }
}

#[test]
fn it_reads_rows_by_position_and_name() {
    let row = two_column_row();
    assert_eq!(row.len(), 2);
    assert_eq!(row.try_get::<i32>(0).unwrap(), 5);
    let ix = row.column_index(&String::from("name")).unwrap();
    assert_eq!(ix, 1);
    let raw = row.try_get_raw_named(&String::from("name")).unwrap();
    assert_eq!(raw.as_str().unwrap(), "Hello World");
    assert_eq!(row.get::<i32>(0), 5);
}

#[test]
fn it_reports_row_access_errors() {
    let row = two_column_row();
    assert!(matches!(
        row.try_get_raw(2),
        Err(Error::ColumnIndexOutOfBounds { index: 2, len: 2 })
    ));
    assert!(matches!(
        row.column_index(&String::from("missing")),
        Err(Error::ColumnNotFound(_))
    ));
    // the descriptor gate: a text column does not decode as an integer
    assert!(matches!(
        row.try_get::<i32>(1),
        Err(Error::Decode(DecodeError::TypeMismatch))
    ));
}

#[test]
fn it_encodes_one_dimensional_arrays() {
    // binding vec![1, 2]: the outer frame, then one dimension without
    // nulls, the element type, the count, the lower bound, and each
    // element as its own frame
    let mut args = PgArguments::new();
    args.add(vec![1i32, 2i32]);
    assert_eq!(args.types.len(), 1);
    assert_eq!(args.types[0].id, Some(1007));
    assert_eq!(args.types[0].name, "INT4[]");
    assert_eq!(
        args.buffer,
        vec![
            0, 0, 0, 36, // payload length
            0, 0, 0, 1, // one dimension
            0, 0, 0, 0, // no nulls
            0, 0, 0, 23, // element type
            0, 0, 0, 2, // element count
            0, 0, 0, 1, // lower bound
            0, 0, 0, 4, 0, 0, 0, 1, // first element
            0, 0, 0, 4, 0, 0, 0, 2, // second element
        ]
    );

    let mut args = PgArguments::new();
    args.add(vec![true]);
    assert_eq!(args.types[0].name, "BOOL[]");
    assert_eq!(
        args.buffer,
        vec![0, 0, 0, 25, 0, 0, 0, 1, 0, 0, 0, 0, 0, 0, 0, 16, 0, 0, 0, 1, 0, 0, 0, 1, 0, 0, 0, 1, 1]
    );

    let mut args = PgArguments::new();
    args.add(vec![-1i16]);
    assert_eq!(args.types[0].name, "INT2[]");
    assert_eq!(
        args.buffer,
        vec![0, 0, 0, 26, 0, 0, 0, 1, 0, 0, 0, 0, 0, 0, 0, 21, 0, 0, 0, 1, 0, 0, 0, 1, 0, 0, 0, 2, 0xff, 0xff]
    );

    let mut args = PgArguments::new();
    args.add(vec![5i64]);
    assert_eq!(args.types[0].name, "INT8[]");
    assert_eq!(args.buffer.len(), 4 + 20 + 12);
}

#[test]
fn it_resolves_builtin_types_without_lookup() {
    let cache = TypeCache::new();
    match cache.resolve_type_info(23, true) {
        TypeResolution::Resolved(t) => {
            assert_eq!(t.id, Some(23));
            assert_eq!(t.name, "INT4");
        }
        TypeResolution::NeedsCatalog(_) => panic!("a built-in never needs the catalog"),
    }
}

#[test]
fn it_resolves_each_custom_type_with_one_catalog_query() {
    let mut cache = TypeCache::new();
    let oid = 16385u32;
    let mut catalog_queries = 0;

    // first resolution: not built-in, not cached — the catalog answers
    let first = match cache.resolve_type_info(oid, true) {
        TypeResolution::NeedsCatalog(o) => {
            assert_eq!(o, oid);
            catalog_queries += 1;
            cache.store_catalog_name(o, String::from("my_enum"))
        }
        TypeResolution::Resolved(_) => panic!("an unknown type needs the catalog"),
    };
    assert_eq!(first.name, "my_enum");

    // second resolution of the same identifier: served from the cache
    match cache.resolve_type_info(oid, true) {
        TypeResolution::Resolved(t) => {
            assert_eq!(t.id, Some(oid));
            assert_eq!(t.name, "my_enum");
        }
        TypeResolution::NeedsCatalog(_) => catalog_queries += 1,
    }
    assert_eq!(catalog_queries, 1);
}

#[test]
fn it_substitutes_a_placeholder_mid_flight() {
    // mid-flight resolution may not issue a nested query: the name is
    // an empty placeholder and the identifier stays uncached
    let cache = TypeCache::new();
    match cache.resolve_type_info(16385, false) {
        TypeResolution::Resolved(t) => {
            assert_eq!(t.id, Some(16385));
            assert_eq!(t.name, "");
        }
        TypeResolution::NeedsCatalog(_) => panic!("fetching was suppressed"),
    }
}

#[test]
fn it_issues_the_documented_catalog_query() {
    let mut q = catalog_type_query(16385);
    assert_eq!(q.query(), "SELECT typname FROM pg_catalog.pg_type WHERE oid = $1");
    let args = q.take_arguments().expect("one bound parameter");
    assert_eq!(args.buffer, vec![0, 0, 0, 4, 0, 0, 0x40, 0x01]);
    // arguments are taken at most once per execution attempt
    assert!(q.take_arguments().is_none());
}

#[test]
fn it_describes_result_columns() {
    let mut cache = TypeCache::new();
    let fields = vec![
        PgField {
            name: String::from("id"),
            data_type_id: 23,
            relation_id: Some(100),
            relation_attribute_no: Some(1),
        },
        PgField {
            name: String::from("label"),
            data_type_id: 16385,
            relation_id: None,
            relation_attribute_no: None,
        },
    ];
    // the second field's type must be fetched first
    match handle_row_description(&cache, &fields, true) {
        DescribeOutcome::NeedsCatalog(oid) => {
            assert_eq!(oid, 16385);
            cache.store_catalog_name(oid, String::from("my_enum"));
        }
        DescribeOutcome::Columns(_, _) => panic!("the custom type was not resolvable yet"),
    }
    // with the cache primed the description completes
    match handle_row_description(&cache, &fields, true) {
        DescribeOutcome::Columns(columns, names) => {
            assert_eq!(columns.len(), 2);
            assert_eq!(columns[0].name, "id");
            assert_eq!(columns[0].type_info.name, "INT4");
            assert_eq!(columns[1].type_info.name, "my_enum");
            assert_eq!(names, vec![(String::from("id"), 0), (String::from("label"), 1)]);
        }
        DescribeOutcome::NeedsCatalog(_) => panic!("the cache was primed"),
    }
}

#[test]
fn it_describes_parameter_types() {
    let mut cache = TypeCache::new();
    match sqlx_core::postgres::describe::handle_parameter_description(&cache, &vec![23, 16385]) {
        Err(oid) => {
            assert_eq!(oid, 16385);
            cache.store_catalog_name(oid, String::from("my_enum"));
        }
        Ok(_) => panic!("the custom parameter type was not resolvable yet"),
    }
    let params =
        sqlx_core::postgres::describe::handle_parameter_description(&cache, &vec![23, 16385])
            .unwrap();
    assert_eq!(params.len(), 2);
    assert_eq!(params[0].name, "INT4");
    assert_eq!(params[1].name, "my_enum");
}

#[test]
fn it_starts_statements_with_no_columns() {
    let statement = PgStatement::empty();
    let row = PgRow {
        data: vec![],
        format: PgValueFormat::Binary,
        statement,
    };
    assert_eq!(row.len(), 0);
    assert!(matches!(
        row.try_get_raw(0),
        Err(Error::ColumnIndexOutOfBounds { index: 0, len: 0 })
    ));
}

#[test]
fn it_compares_type_descriptors_structurally() {
    let a = PgTypeInfo::try_from_id(23).unwrap();
    let b = PgTypeInfo::try_from_id(23).unwrap();
    let c = PgTypeInfo::try_from_id(25).unwrap();
    assert!(a == b);
    assert!(a != c);
    assert!(<i32 as Decode<Postgres>>::accepts(&a));
    assert!(!<i32 as Decode<Postgres>>::accepts(&c));
}

#[test]
fn it_reports_whether_a_value_is_null() {
    let t = PgTypeInfo::try_from_id(16).unwrap();
    assert!(null_value(t.clone()).as_ref().is_null());
    assert!(!binary_value(vec![1], t).as_ref().is_null());
}

#[test]
fn it_keeps_produces_for_some_and_none() {
    let some = Some(7i32);
    let none: Option<i32> = None;
    assert_eq!(Encode::<Postgres>::produces(&some).name, "INT4");
    assert_eq!(Encode::<Postgres>::produces(&none).name, "INT4");
    let mut args = PgArguments::new();
    assert!(matches!(Encode::<Postgres>::encode(none, &mut args), IsNull::Yes));
    assert!(args.buffer.is_empty());
}
