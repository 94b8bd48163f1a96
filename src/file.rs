//! Uploaded files: records, their rows, upload forms and storage buckets.

use crate::kinds::AssociationType;
use crate::rows::{take_big, take_key, take_small, take_text, SqlValue};
use crate::text::{
    fresh_key, key_parse_of, key_text_of, lower_of, lowercase, now_seconds, parse_int, parse_key, parsed_i64, same_text,
};
use crate::user::User;
use vstd::prelude::*;
use vstd::string::*;

verus! {

/// An uploaded file attached to another record.
#[derive(Clone, Debug)]
pub struct File {
    pub key: u128,
    pub owner_key: u128,
    pub organization_key: u128,
    pub association_type: AssociationType,
    pub association_key: u128,
    pub url: String,
    pub hash: String,
    pub name: String,
    pub description: String,
    pub tags: String,
    pub format: String,
    pub size: i64,
    pub created: i64,
    pub updated: i64,
}

impl File {
    /// The row stored for this record, in the column order of the `files` table.
    pub open spec fn row_spec(self) -> Seq<SqlValue> {
        seq![
            SqlValue::Key(self.key),
            SqlValue::Key(self.owner_key),
            SqlValue::Key(self.organization_key),
            SqlValue::SmallInt(self.association_type.spec_code()),
            SqlValue::Key(self.association_key),
            SqlValue::Text(self.url),
            SqlValue::Text(self.hash),
            SqlValue::Text(self.name),
            SqlValue::Text(self.description),
            SqlValue::Text(self.tags),
            SqlValue::Text(self.format),
            SqlValue::BigInt(self.size),
            SqlValue::BigInt(self.created),
            SqlValue::BigInt(self.updated),
        ]
    }

    /// The record a stored row reads as, if every column holds a value of its type.
    pub open spec fn spec_from_row(row: Seq<SqlValue>) -> Option<File> {
        if row.len() == 14
            && row[0] is Key
            && row[1] is Key
            && row[2] is Key
            && row[3] is SmallInt
            && AssociationType::spec_from_code(row[3]->SmallInt_0) is Some
            && row[4] is Key
            && row[5] is Text
            && row[6] is Text
            && row[7] is Text
            && row[8] is Text
            && row[9] is Text
            && row[10] is Text
            && row[11] is BigInt
            && row[12] is BigInt
            && row[13] is BigInt {
            Some(File {
                key: row[0]->Key_0,
                owner_key: row[1]->Key_0,
                organization_key: row[2]->Key_0,
                association_type: AssociationType::spec_from_code(row[3]->SmallInt_0)->0,
                association_key: row[4]->Key_0,
                url: row[5]->Text_0,
                hash: row[6]->Text_0,
                name: row[7]->Text_0,
                description: row[8]->Text_0,
                tags: row[9]->Text_0,
                format: row[10]->Text_0,
                size: row[11]->BigInt_0,
                created: row[12]->BigInt_0,
                updated: row[13]->BigInt_0,
            })
        } else {
            None
        }
    }

    /// The row stored for this record, in the column order of the `files` table.
    pub fn to_row(self) -> (r: Vec<SqlValue>)
        ensures
            r@ == self.row_spec(),
    {
        let mut row: Vec<SqlValue> = Vec::new();
        row.push(SqlValue::Key(self.key));
        row.push(SqlValue::Key(self.owner_key));
        row.push(SqlValue::Key(self.organization_key));
        row.push(SqlValue::SmallInt(self.association_type.code()));
        row.push(SqlValue::Key(self.association_key));
        row.push(SqlValue::Text(self.url));
        row.push(SqlValue::Text(self.hash));
        row.push(SqlValue::Text(self.name));
        row.push(SqlValue::Text(self.description));
        row.push(SqlValue::Text(self.tags));
        row.push(SqlValue::Text(self.format));
        row.push(SqlValue::BigInt(self.size));
        row.push(SqlValue::BigInt(self.created));
        row.push(SqlValue::BigInt(self.updated));
        proof {
            assert(row@ =~= self.row_spec());
        }
        row
    }

    /// Reads a stored row back; `None` when a column is missing or of another type.
    pub fn from_row(row: Vec<SqlValue>) -> (r: Option<File>)
        ensures
            r == File::spec_from_row(row@),
    {
        let mut row = row;
        if row.len() != 14 {
            return None;
        }
        let updated = match take_big(&mut row) {
            Some(v) => v,
            None => return None,
        };
        let created = match take_big(&mut row) {
            Some(v) => v,
            None => return None,
        };
        let size = match take_big(&mut row) {
            Some(v) => v,
            None => return None,
        };
        let format = match take_text(&mut row) {
            Some(v) => v,
            None => return None,
        };
        let tags = match take_text(&mut row) {
            Some(v) => v,
            None => return None,
        };
        let description = match take_text(&mut row) {
            Some(v) => v,
            None => return None,
        };
        let name = match take_text(&mut row) {
            Some(v) => v,
            None => return None,
        };
        let hash = match take_text(&mut row) {
            Some(v) => v,
            None => return None,
        };
        let url = match take_text(&mut row) {
            Some(v) => v,
            None => return None,
        };
        let association_key = match take_key(&mut row) {
            Some(v) => v,
            None => return None,
        };
        let association_type = match take_small(&mut row) {
            Some(v) => v,
            None => return None,
        };
        let organization_key = match take_key(&mut row) {
            Some(v) => v,
            None => return None,
        };
        let owner_key = match take_key(&mut row) {
            Some(v) => v,
            None => return None,
        };
        let key = match take_key(&mut row) {
            Some(v) => v,
            None => return None,
        };
        let association_type = match AssociationType::from_code(association_type) {
            Some(v) => v,
            None => return None,
        };
        Some(File {
            key,
            owner_key,
            organization_key,
            association_type,
            association_key,
            url,
            hash,
            name,
            description,
            tags,
            format,
            size,
            created,
            updated,
        })
    }

    /// A new record: a fresh key, created now, never updated.
    pub fn new(
        owner_key: u128,
        organization_key: u128,
        association_type: AssociationType,
        association_key: u128,
        url: String,
        hash: String,
        name: String,
        description: String,
        tags: String,
        format: String,
        size: i64,
    ) -> (r: File)
        ensures
            r.key != 0,
            r.owner_key == owner_key,
            r.organization_key == organization_key,
            r.association_type == association_type,
            r.association_key == association_key,
            r.url == url,
            r.hash == hash,
            r.name == name,
            r.description == description,
            r.tags == tags,
            r.format == format,
            r.size == size,
            r.updated == 0,
    {
        let key = fresh_key();
        let created = now_seconds();
        File {
            key,
            owner_key,
            organization_key,
            association_type,
            association_key,
            url,
            hash,
            name,
            description,
            tags,
            format,
            size,
            created,
            updated: 0,
        }
    }
}

/// A File written as a row reads back as the same File, field for field.
pub proof fn lemma_file_row_round_trip(x: File)
    ensures
        File::spec_from_row(x.row_spec()) == Some(x),
{
    crate::kinds::lemma_association_type_code_round_trip(x.association_type);
}

/// The name of the storage bucket for the files of one record, from the
/// lowercased kind and key texts: `<kind>-<key>-fs`.
pub fn bucket_name(kind: &str, key: &str) -> (r: String)
    ensures
        r@ == kind@ + "-"@ + key@ + "-fs"@,
{
    let mut r = kind.to_owned();
    r.append("-");
    r.append(key);
    r.append("-fs");
    r
}

/// The name of the storage bucket for the files of one record: its kind and
/// key as given, lowercased.
pub fn get_bucket_name(association_type: String, association_key: String) -> (r: String)
    ensures
        r@ == lower_of(association_type@) + "-"@ + lower_of(association_key@) + "-fs"@,
{
    let kind = lowercase(association_type.as_str());
    let key = lowercase(association_key.as_str());
    bucket_name(kind.as_str(), key.as_str())
}

/// Why an upload form is refused.
#[derive(Clone, Copy, Debug, PartialEq, Eq, Structural)]
pub enum FormError {
    /// The `size` field is not an integer.
    BadSize,
    /// A key field is not a key.
    BadKey,
    /// The association type names no kind of record.
    BadAssociationType,
}

/// The text fields of a file upload form, as read so far.
#[derive(Clone, Debug)]
pub struct FileForm {
    pub key: String,
    pub name: String,
    pub description: String,
    pub format: String,
    pub tags: String,
    pub url: String,
    pub organization_key: String,
    pub association_type: String,
    pub association_key: String,
    pub hash: String,
    pub size: i64,
}

/// The form after a field named `name` holding `text` was read; `None` when
/// the field is `size` and its text is not an integer. Fields of other names
/// leave the form as it is.
pub open spec fn form_with(form: FileForm, name: Seq<char>, text: String) -> Option<FileForm> {
    if name == "name"@ {
        Some(FileForm { name: text, ..form })
    } else if name == "key"@ {
        Some(FileForm { key: text, ..form })
    } else if name == "description"@ {
        Some(FileForm { description: text, ..form })
    } else if name == "tags"@ {
        Some(FileForm { tags: text, ..form })
    } else if name == "organization_key"@ {
        Some(FileForm { organization_key: text, ..form })
    } else if name == "association_type"@ {
        Some(FileForm { association_type: text, ..form })
    } else if name == "association_key"@ {
        Some(FileForm { association_key: text, ..form })
    } else if name == "hash"@ {
        Some(FileForm { hash: text, ..form })
    } else if name == "url"@ {
        Some(FileForm { url: text, ..form })
    } else if name == "format"@ {
        Some(FileForm { format: text, ..form })
    } else if name == "size"@ {
        match parsed_i64(text@) {
            Some(v) => Some(FileForm { size: v, ..form }),
            None => None,
        }
    } else {
        Some(form)
    }
}

impl FileForm {
    /// A form with no field read yet.
    pub fn empty() -> (r: FileForm)
        ensures
            r.key@.len() == 0 && r.name@.len() == 0 && r.description@.len() == 0,
            r.format@.len() == 0 && r.tags@.len() == 0 && r.url@.len() == 0,
            r.organization_key@.len() == 0 && r.association_type@.len() == 0,
            r.association_key@.len() == 0 && r.hash@.len() == 0,
            r.size == 0,
    {
        FileForm {
            key: String::new(),
            name: String::new(),
            description: String::new(),
            format: String::new(),
            tags: String::new(),
            url: String::new(),
            organization_key: String::new(),
            association_type: String::new(),
            association_key: String::new(),
            hash: String::new(),
            size: 0,
        }
    }

    /// Reads one text field of the form; a later field of the same name
    /// replaces an earlier one.
    pub fn set_field(&mut self, name: &str, text: String) -> (r: Result<(), FormError>)
        ensures
            form_with(*old(self), name@, text) matches Some(f) ==> r is Ok && *final(self) == f,
            form_with(*old(self), name@, text) is None ==> r == Err::<(), FormError>(FormError::BadSize)
                && *final(self) == *old(self),
    {
        if same_text(name, "name") {
            self.name = text;
        } else if same_text(name, "key") {
            self.key = text;
        } else if same_text(name, "description") {
            self.description = text;
        } else if same_text(name, "tags") {
            self.tags = text;
        } else if same_text(name, "organization_key") {
            self.organization_key = text;
        } else if same_text(name, "association_type") {
            self.association_type = text;
        } else if same_text(name, "association_key") {
            self.association_key = text;
        } else if same_text(name, "hash") {
            self.hash = text;
        } else if same_text(name, "url") {
            self.url = text;
        } else if same_text(name, "format") {
            self.format = text;
        } else if same_text(name, "size") {
            match parse_int(text.as_str()) {
                Some(v) => {
                    self.size = v;
                },
                None => {
                    return Err(FormError::BadSize);
                },
            }
        }
        Ok(())
    }
}

/// What an upload form comes to: where its content is stored, and its record.
#[derive(Clone, Debug)]
pub struct FileUpload {
    pub bucket: String,
    pub file: File,
    /// Whether the record is new and is to be stored; otherwise it names an
    /// existing file by the form's key and nothing is stored.
    pub is_new: bool,
}

/// What an upload form sent by `owner` comes to: the bucket named after the
/// attached record, and a file record owned by `owner` with the form's
/// fields. A form whose key is nil makes a new record; any other key names
/// an existing one. Refused when a key field is not a key, or when the
/// association type names no kind of record.
pub fn insert(owner: &User, form: FileForm) -> (r: Result<FileUpload, FormError>)
    ensures
        r is Ok <==> (key_parse_of(form.organization_key@) is Some && key_parse_of(
            form.association_key@,
        ) is Some && key_parse_of(form.key@) is Some && AssociationType::spec_from_label(
            form.association_type@,
        ) is Some),
        r == Err::<FileUpload, FormError>(FormError::BadAssociationType) ==> AssociationType::spec_from_label(
            form.association_type@,
        ) is None,
        r == Err::<FileUpload, FormError>(FormError::BadKey) ==> !(key_parse_of(form.organization_key@) is Some
            && key_parse_of(form.association_key@) is Some && key_parse_of(form.key@) is Some),
        r matches Ok(u) ==> {
            &&& u.bucket@ == lower_of(form.association_type@) + "-"@ + lower_of(form.association_key@)
                + "-fs"@
            &&& u.is_new == (key_parse_of(form.key@)->0 == 0)
            &&& !u.is_new ==> u.file.key == key_parse_of(form.key@)->0
            &&& u.is_new ==> u.file.key != 0
            &&& u.file.owner_key == owner.key
            &&& u.file.organization_key == key_parse_of(form.organization_key@)->0
            &&& Some(u.file.association_type) == AssociationType::spec_from_label(form.association_type@)
            &&& u.file.association_key == key_parse_of(form.association_key@)->0
            &&& u.file.url == form.url && u.file.hash == form.hash && u.file.name == form.name
            &&& u.file.description == form.description && u.file.tags == form.tags
            &&& u.file.format == form.format && u.file.size == form.size
            &&& u.file.updated == 0
        },
{
    let organization_key = match parse_key(form.organization_key.as_str()) {
        Some(k) => k,
        None => return Err(FormError::BadKey),
    };
    let association_key = match parse_key(form.association_key.as_str()) {
        Some(k) => k,
        None => return Err(FormError::BadKey),
    };
    let key = match parse_key(form.key.as_str()) {
        Some(k) => k,
        None => return Err(FormError::BadKey),
    };
    let association_type = match AssociationType::from_str(form.association_type.as_str()) {
        Ok(t) => t,
        Err(_) => return Err(FormError::BadAssociationType),
    };
    let bucket = get_bucket_name(form.association_type, form.association_key);
    let mut file = File::new(
        owner.key,
        organization_key,
        association_type,
        association_key,
        form.url,
        form.hash,
        form.name,
        form.description,
        form.tags,
        form.format,
        form.size,
    );
    let is_new = key == 0;
    if !is_new {
        file.key = key;
    }
    Ok(FileUpload { bucket, file, is_new })
}

/// The content type a stored file is served as, by its format.
#[derive(Clone, Copy, Debug, PartialEq, Eq, Structural)]
pub enum ContentKind {
    Jpeg,
    Png,
    Svg,
    Ico,
    Bytes,
}

/// The content type a stored file is served as: by its format, raw bytes
/// for any format other than `jpg`, `jpeg`, `png`, `svg` and `ico`.
pub fn content_kind(format: &str) -> (r: ContentKind)
    ensures
        r == (if format@ == "jpg"@ || format@ == "jpeg"@ {
            ContentKind::Jpeg
        } else if format@ == "png"@ {
            ContentKind::Png
        } else if format@ == "svg"@ {
            ContentKind::Svg
        } else if format@ == "ico"@ {
            ContentKind::Ico
        } else {
            ContentKind::Bytes
        }),
{
    if same_text(format, "jpg") || same_text(format, "jpeg") {
        ContentKind::Jpeg
    } else if same_text(format, "png") {
        ContentKind::Png
    } else if same_text(format, "svg") {
        ContentKind::Svg
    } else if same_text(format, "ico") {
        ContentKind::Ico
    } else {
        ContentKind::Bytes
    }
}

/// Whether a signed-in user may read the stored files under an
/// organization id given in a path: only their own organization's, written
/// as its key text.
pub fn may_serve(user: &User, organization_id: &str) -> (r: bool)
    ensures
        r == (organization_id@ == key_text_of(user.organization_key)),
{
    let own = crate::text::key_text(user.organization_key);
    same_text(organization_id, own.as_str())
}

} // verus!
