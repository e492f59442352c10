//! Names and English descriptions of the WMI status codes (`HRESULT`s
//! returned by WMI), and a rough classification of the other codes.

use vstd::prelude::*;

verus! {

/// Text of `WBEM_E_FAILED`.
pub const WBEM_E_FAILED_EN: &'static str = "Call failed.";

/// Text of `WBEM_E_NOT_FOUND`.
pub const WBEM_E_NOT_FOUND_EN: &'static str = "Object cannot be found.";

/// Text of `WBEM_E_ACCESS_DENIED`.
pub const WBEM_E_ACCESS_DENIED_EN: &'static str =
    "Current user does not have permission to perform the action.";

/// Text of `WBEM_E_PROVIDER_FAILURE`.
pub const WBEM_E_PROVIDER_FAILURE_EN: &'static str =
    "Provider has failed at some time other than during initialization.";

/// Text of `WBEM_E_TYPE_MISMATCH`.
pub const WBEM_E_TYPE_MISMATCH_EN: &'static str = "Type mismatch occurred.";

/// Text of `WBEM_E_OUT_OF_MEMORY`.
pub const WBEM_E_OUT_OF_MEMORY_EN: &'static str = "Not enough memory for the operation.";

/// Text of `WBEM_E_INVALID_CONTEXT`.
pub const WBEM_E_INVALID_CONTEXT_EN: &'static str = "The IWbemContext object is not valid.";

/// Text of `WBEM_E_INVALID_PARAMETER`.
pub const WBEM_E_INVALID_PARAMETER_EN: &'static str = "One of the parameters to the call is not correct.";

/// Text of `WBEM_E_NOT_AVAILABLE`.
pub const WBEM_E_NOT_AVAILABLE_EN: &'static str =
    "Resource, typically a remote server, is not currently available.";

/// Text of `WBEM_E_CRITICAL_ERROR`.
pub const WBEM_E_CRITICAL_ERROR_EN: &'static str =
    "Internal, critical, and unexpected error occurred. Report the error to Microsoft Technical \
    Support.";

/// Text of `WBEM_E_INVALID_STREAM`.
pub const WBEM_E_INVALID_STREAM_EN: &'static str =
    "One or more network packets were corrupted during a remote session.";

/// Text of `WBEM_E_NOT_SUPPORTED`.
pub const WBEM_E_NOT_SUPPORTED_EN: &'static str = "Feature or operation is not supported.";

/// Text of `WBEM_E_INVALID_SUPERCLASS`.
pub const WBEM_E_INVALID_SUPERCLASS_EN: &'static str = "Parent class specified is not valid.";

/// Text of `WBEM_E_INVALID_NAMESPACE`.
pub const WBEM_E_INVALID_NAMESPACE_EN: &'static str = "Namespace specified cannot be found.";

/// Text of `WBEM_E_INVALID_OBJECT`.
pub const WBEM_E_INVALID_OBJECT_EN: &'static str = "Specified instance is not valid.";

/// Text of `WBEM_E_INVALID_CLASS`.
pub const WBEM_E_INVALID_CLASS_EN: &'static str = "Specified class is not valid.";

/// Text of `WBEM_E_PROVIDER_NOT_FOUND`.
pub const WBEM_E_PROVIDER_NOT_FOUND_EN: &'static str =
    "Provider referenced in the schema does not have a corresponding registration.";

/// Text of `WBEM_E_INVALID_PROVIDER_REGISTRATION`.
pub const WBEM_E_INVALID_PROVIDER_REGISTRATION_EN: &'static str =
    "Provider referenced in the schema has an incorrect or incomplete registration.
    \n
    \nThis error may be caused by many conditions, including the following:
    \n
    \n• A missing #pragma namespace command in the Managed Object Format (MOF) file used to \
    register the provider. The provider may be registered in the wrong WMI namespace.
    \n• Failure to retrieve the COM registration.
    \n• Hosting model is not valid. For more information, see Provider Hosting and Security.
    \n• An class specified in the registration is not valid.
    \n• Failure to create an instance of or inherit from the __Win32Provider class to create the \
    provider registration in the MOF file.";

/// Text of `WBEM_E_PROVIDER_LOAD_FAILURE`.
pub const WBEM_E_PROVIDER_LOAD_FAILURE_EN: &'static str =
    "COM cannot locate a provider referenced in the schema.
    \n
    \nThis error may be caused by many conditions, including the following:
    \n
    \n• Provider is using a WMI DLL that does not match the .lib file used when the provider was \
    built.
    \n• Provider's DLL, or any of the DLLs on which it depends, is corrupt.
    \n• Provider failed to export DllRegisterServer.
    \n• In-process provider was not registered using the regsvr32 command.
    \n• Out-of-process provider was not registered using the /regserver switch. For example, \
    myprog.exe /regserver.";

/// Text of `WBEM_E_INITIALIZATION_FAILURE`.
pub const WBEM_E_INITIALIZATION_FAILURE_EN: &'static str =
    "Component, such as a provider, failed to initialize for internal reasons.";

/// Text of `WBEM_E_TRANSPORT_FAILURE`.
pub const WBEM_E_TRANSPORT_FAILURE_EN: &'static str =
    "Networking error that prevents normal operation has occurred.";

/// Text of `WBEM_E_INVALID_OPERATION`.
pub const WBEM_E_INVALID_OPERATION_EN: &'static str =
    "Requested operation is not valid. This error usually applies to invalid attempts to delete \
    classes or properties.";

/// Text of `WBEM_E_INVALID_QUERY`.
pub const WBEM_E_INVALID_QUERY_EN: &'static str = "Query was not syntactically valid.";

/// Text of `WBEM_E_INVALID_QUERY_TYPE`.
pub const WBEM_E_INVALID_QUERY_TYPE_EN: &'static str = "Requested query language is not supported.";

/// Text of `WBEM_E_ALREADY_EXISTS`.
pub const WBEM_E_ALREADY_EXISTS_EN: &'static str =
    "In a put operation, the wbemChangeFlagCreateOnly flag was specified, but the instance already \
    exists.";

/// Text of `WBEM_E_OVERRIDE_NOT_ALLOWED`.
pub const WBEM_E_OVERRIDE_NOT_ALLOWED_EN: &'static str =
    "Not possible to perform the add operation on this qualifier because the owning object does \
    not permit overrides.";

/// Text of `WBEM_E_PROPAGATED_QUALIFIER`.
pub const WBEM_E_PROPAGATED_QUALIFIER_EN: &'static str =
    "User attempted to delete a qualifier that was not owned. The qualifier was inherited from a \
    parent class.";

/// Text of `WBEM_E_PROPAGATED_PROPERTY`.
pub const WBEM_E_PROPAGATED_PROPERTY_EN: &'static str =
    "User attempted to delete a property that was not owned. The property was inherited from a \
    parent class.";

/// Text of `WBEM_E_UNEXPECTED`.
pub const WBEM_E_UNEXPECTED_EN: &'static str =
    "Client made an unexpected and illegal sequence of calls, such as calling EndEnumeration \
    before calling BeginEnumeration.";

/// Text of `WBEM_E_ILLEGAL_OPERATION`.
pub const WBEM_E_ILLEGAL_OPERATION_EN: &'static str =
    "User requested an illegal operation, such as spawning a class from an instance.";

/// Text of `WBEM_E_CANNOT_BE_KEY`.
pub const WBEM_E_CANNOT_BE_KEY_EN: &'static str =
    "Illegal attempt to specify a key qualifier on a property that cannot be a key. The keys are \
    specified in the class definition for an object and cannot be altered on a per-instance basis.";

/// Text of `WBEM_E_INCOMPLETE_CLASS`.
pub const WBEM_E_INCOMPLETE_CLASS_EN: &'static str =
    "Current object is not a valid class definition. Either it is incomplete or it has not been \
    registered with WMI using SWbemObject.Put_.";

/// Text of `WBEM_E_INVALID_SYNTAX`.
pub const WBEM_E_INVALID_SYNTAX_EN: &'static str = "Query is syntactically not valid.";

/// Text of `WBEM_E_NONDECORATED_OBJECT`.
pub const WBEM_E_NONDECORATED_OBJECT_EN: &'static str = "Reserved for future use.";

/// Text of `WBEM_E_READ_ONLY`.
pub const WBEM_E_READ_ONLY_EN: &'static str = "An attempt was made to modify a read-only property.";

/// Text of `WBEM_E_PROVIDER_NOT_CAPABLE`.
pub const WBEM_E_PROVIDER_NOT_CAPABLE_EN: &'static str =
    "Provider cannot perform the requested operation. This can include a query that is too \
    complex, retrieving an instance, creating or updating a class, deleting a class, or \
    enumerating a class.";

/// Text of `WBEM_E_CLASS_HAS_CHILDREN`.
pub const WBEM_E_CLASS_HAS_CHILDREN_EN: &'static str =
    "Attempt was made to make a change that invalidates a subclass.";

/// Text of `WBEM_E_CLASS_HAS_INSTANCES`.
pub const WBEM_E_CLASS_HAS_INSTANCES_EN: &'static str =
    "Attempt was made to delete or modify a class that has instances.";

/// Text of `WBEM_E_QUERY_NOT_IMPLEMENTED`.
pub const WBEM_E_QUERY_NOT_IMPLEMENTED_EN: &'static str = "Reserved for future use.";

/// Text of `WBEM_E_ILLEGAL_NULL`.
pub const WBEM_E_ILLEGAL_NULL_EN: &'static str =
    "Value of Nothing/NULL was specified for a property that must have a value, such as one that \
    is marked by a Key, Indexed, or Not_Null qualifier.";

/// Text of `WBEM_E_INVALID_QUALIFIER_TYPE`.
pub const WBEM_E_INVALID_QUALIFIER_TYPE_EN: &'static str =
    "Variant value for a qualifier was provided that is not a legal qualifier type.";

/// Text of `WBEM_E_INVALID_PROPERTY_TYPE`.
pub const WBEM_E_INVALID_PROPERTY_TYPE_EN: &'static str = "CIM type specified for a property is not valid.";

/// Text of `WBEM_E_VALUE_OUT_OF_RANGE`.
pub const WBEM_E_VALUE_OUT_OF_RANGE_EN: &'static str =
    "Request was made with an out-of-range value or it is incompatible with the type.";

/// Text of `WBEM_E_CANNOT_BE_SINGLETON`.
pub const WBEM_E_CANNOT_BE_SINGLETON_EN: &'static str =
    "Illegal attempt was made to make a class singleton, such as when the class is derived from a \
    non-singleton class.";

/// Text of `WBEM_E_INVALID_CIM_TYPE`.
pub const WBEM_E_INVALID_CIM_TYPE_EN: &'static str = "CIM type specified is not valid.";

/// Text of `WBEM_E_INVALID_METHOD`.
pub const WBEM_E_INVALID_METHOD_EN: &'static str = "Requested method is not available.";

/// Text of `WBEM_E_INVALID_METHOD_PARAMETERS`.
pub const WBEM_E_INVALID_METHOD_PARAMETERS_EN: &'static str =
    "Parameters provided for the method are not valid.";

/// Text of `WBEM_E_SYSTEM_PROPERTY`.
pub const WBEM_E_SYSTEM_PROPERTY_EN: &'static str =
    "There was an attempt to get qualifiers on a system property.";

/// Text of `WBEM_E_INVALID_PROPERTY`.
pub const WBEM_E_INVALID_PROPERTY_EN: &'static str = "Property type is not recognized.";

/// Text of `WBEM_E_CALL_CANCELLED`.
pub const WBEM_E_CALL_CANCELLED_EN: &'static str =
    "Asynchronous process has been canceled internally or by the user. Note that due to the timing \
    and nature of the asynchronous operation, the operation may not have been truly canceled.";

/// Text of `WBEM_E_SHUTTING_DOWN`.
pub const WBEM_E_SHUTTING_DOWN_EN: &'static str =
    "User has requested an operation while WMI is in the process of shutting down.";

/// Text of `WBEM_E_PROPAGATED_METHOD`.
pub const WBEM_E_PROPAGATED_METHOD_EN: &'static str =
    "Attempt was made to reuse an existing method name from a parent class and the signatures do \
    not match.";

/// Text of `WBEM_E_UNSUPPORTED_PARAMETER`.
pub const WBEM_E_UNSUPPORTED_PARAMETER_EN: &'static str =
    "One or more parameter values, such as a query text, is too complex or unsupported. WMI is \
    therefore requested to retry the operation with simpler parameters.";

/// Text of `WBEM_E_MISSING_PARAMETER_ID`.
pub const WBEM_E_MISSING_PARAMETER_ID_EN: &'static str = "Parameter was missing from the method call.";

/// Text of `WBEM_E_INVALID_PARAMETER_ID`.
pub const WBEM_E_INVALID_PARAMETER_ID_EN: &'static str =
    "Method parameter has an ID qualifier that is not valid.";

/// Text of `WBEM_E_NONCONSECUTIVE_PARAMETER_IDS`.
pub const WBEM_E_NONCONSECUTIVE_PARAMETER_IDS_EN: &'static str =
    "One or more of the method parameters have ID qualifiers that are out of sequence.";

/// Text of `WBEM_E_PARAMETER_ID_ON_RETVAL`.
pub const WBEM_E_PARAMETER_ID_ON_RETVAL_EN: &'static str = "Return value for a method has an ID qualifier.";

/// Text of `WBEM_E_INVALID_OBJECT_PATH`.
pub const WBEM_E_INVALID_OBJECT_PATH_EN: &'static str = "Specified object path was not valid.";

/// Text of `WBEM_E_OUT_OF_DISK_SPACE`.
pub const WBEM_E_OUT_OF_DISK_SPACE_EN: &'static str =
    "Disk is out of space or the 4 GB limit on WMI repository (CIM repository) size is reached.";

/// Text of `WBEM_E_BUFFER_TOO_SMALL`.
pub const WBEM_E_BUFFER_TOO_SMALL_EN: &'static str =
    "Supplied buffer was too small to hold all of the objects in the enumerator or to read a \
    string property.";

/// Text of `WBEM_E_UNSUPPORTED_PUT_EXTENSION`.
pub const WBEM_E_UNSUPPORTED_PUT_EXTENSION_EN: &'static str =
    "Provider does not support the requested put operation.";

/// Text of `WBEM_E_UNKNOWN_OBJECT_TYPE`.
pub const WBEM_E_UNKNOWN_OBJECT_TYPE_EN: &'static str =
    "Object with an incorrect type or version was encountered during marshaling.";

/// Text of `WBEM_E_UNKNOWN_PACKET_TYPE`.
pub const WBEM_E_UNKNOWN_PACKET_TYPE_EN: &'static str =
    "Packet with an incorrect type or version was encountered during marshaling.";

/// Text of `WBEM_E_MARSHAL_VERSION_MISMATCH`.
pub const WBEM_E_MARSHAL_VERSION_MISMATCH_EN: &'static str = "Packet has an unsupported version.";

/// Text of `WBEM_E_MARSHAL_INVALID_SIGNATURE`.
pub const WBEM_E_MARSHAL_INVALID_SIGNATURE_EN: &'static str = "Packet appears to be corrupt.";

/// Text of `WBEM_E_INVALID_QUALIFIER`.
pub const WBEM_E_INVALID_QUALIFIER_EN: &'static str =
    "Attempt was made to mismatch qualifiers, such as putting [key] on an object instead of a \
    property.";

/// Text of `WBEM_E_INVALID_DUPLICATE_PARAMETER`.
pub const WBEM_E_INVALID_DUPLICATE_PARAMETER_EN: &'static str =
    "Duplicate parameter was declared in a CIM method.";

/// Text of `WBEM_E_TOO_MUCH_DATA`.
pub const WBEM_E_TOO_MUCH_DATA_EN: &'static str = "Reserved for future use.";

/// Text of `WBEM_E_SERVER_TOO_BUSY`.
pub const WBEM_E_SERVER_TOO_BUSY_EN: &'static str =
    "Call to IWbemObjectSink::Indicate has failed. The provider can refire the event.";

/// Text of `WBEM_E_INVALID_FLAVOR`.
pub const WBEM_E_INVALID_FLAVOR_EN: &'static str = "Specified qualifier flavor was not valid.";

/// Text of `WBEM_E_CIRCULAR_REFERENCE`.
pub const WBEM_E_CIRCULAR_REFERENCE_EN: &'static str =
    "Attempt was made to create a reference that is circular (for example, deriving a class from \
    itself).";

/// Text of `WBEM_E_UNSUPPORTED_CLASS_UPDATE`.
pub const WBEM_E_UNSUPPORTED_CLASS_UPDATE_EN: &'static str = "Specified class is not supported.";

/// Text of `WBEM_E_CANNOT_CHANGE_KEY_INHERITANCE`.
pub const WBEM_E_CANNOT_CHANGE_KEY_INHERITANCE_EN: &'static str =
    "Attempt was made to change a key when instances or subclasses are already using the key.";

/// Text of `WBEM_E_CANNOT_CHANGE_INDEX_INHERITANCE`.
pub const WBEM_E_CANNOT_CHANGE_INDEX_INHERITANCE_EN: &'static str =
    "An attempt was made to change an index when instances or subclasses are already using the \
    index.";

/// Text of `WBEM_E_TOO_MANY_PROPERTIES`.
pub const WBEM_E_TOO_MANY_PROPERTIES_EN: &'static str =
    "Attempt was made to create more properties than the current version of the class supports.";

/// Text of `WBEM_E_UPDATE_TYPE_MISMATCH`.
pub const WBEM_E_UPDATE_TYPE_MISMATCH_EN: &'static str =
    "Property was redefined with a conflicting type in a derived class.";

/// Text of `WBEM_E_UPDATE_OVERRIDE_NOT_ALLOWED`.
pub const WBEM_E_UPDATE_OVERRIDE_NOT_ALLOWED_EN: &'static str =
    "Attempt was made in a derived class to override a qualifier that cannot be overridden.";

/// Text of `WBEM_E_UPDATE_PROPAGATED_METHOD`.
pub const WBEM_E_UPDATE_PROPAGATED_METHOD_EN: &'static str =
    "Method was re-declared with a conflicting signature in a derived class.";

/// Text of `WBEM_E_METHOD_NOT_IMPLEMENTED`.
pub const WBEM_E_METHOD_NOT_IMPLEMENTED_EN: &'static str =
    "Attempt was made to execute a method not marked with [implemented] in any relevant class.";

/// Text of `WBEM_E_METHOD_DISABLED`.
pub const WBEM_E_METHOD_DISABLED_EN: &'static str =
    "Attempt was made to execute a method marked with [disabled].";

/// Text of `WBEM_E_REFRESHER_BUSY`.
pub const WBEM_E_REFRESHER_BUSY_EN: &'static str = "Refresher is busy with another operation.";

/// Text of `WBEM_E_UNPARSABLE_QUERY`.
pub const WBEM_E_UNPARSABLE_QUERY_EN: &'static str = "Filtering query is syntactically not valid.";

/// Text of `WBEM_E_NOT_EVENT_CLASS`.
pub const WBEM_E_NOT_EVENT_CLASS_EN: &'static str =
    "The FROM clause of a filtering query references a class that is not an event class (not \
    derived from __Event).";

/// Text of `WBEM_E_MISSING_GROUP_WITHIN`.
pub const WBEM_E_MISSING_GROUP_WITHIN_EN: &'static str =
    "A GROUP BY clause was used without the corresponding GROUP WITHIN clause.";

/// Text of `WBEM_E_MISSING_AGGREGATION_LIST`.
pub const WBEM_E_MISSING_AGGREGATION_LIST_EN: &'static str =
    "A GROUP BY clause was used. Aggregation on all properties is not supported.";

/// Text of `WBEM_E_PROPERTY_NOT_AN_OBJECT`.
pub const WBEM_E_PROPERTY_NOT_AN_OBJECT_EN: &'static str =
    "Dot notation was used on a property that is not an embedded object.";

/// Text of `WBEM_E_AGGREGATING_BY_OBJECT`.
pub const WBEM_E_AGGREGATING_BY_OBJECT_EN: &'static str =
    "A GROUP BY clause references a property that is an embedded object without using dot notation.";

/// Text of `WBEM_E_UNINTERPRETABLE_PROVIDER_QUERY`.
pub const WBEM_E_UNINTERPRETABLE_PROVIDER_QUERY_EN: &'static str =
    "Event provider registration query (__EventProviderRegistration) did not specify the classes \
    for which events were provided.";

/// Text of `WBEM_E_BACKUP_RESTORE_WINMGMT_RUNNING`.
pub const WBEM_E_BACKUP_RESTORE_WINMGMT_RUNNING_EN: &'static str =
    "Request was made to back up or restore the repository while it was in use by WinMgmt.exe, or \
    by the SVCHOST process that contains the WMI service.";

/// Text of `WBEM_E_QUEUE_OVERFLOW`.
pub const WBEM_E_QUEUE_OVERFLOW_EN: &'static str =
    "Asynchronous delivery queue overflowed from the event consumer being too slow.";

/// Text of `WBEM_E_PRIVILEGE_NOT_HELD`.
pub const WBEM_E_PRIVILEGE_NOT_HELD_EN: &'static str =
    "Operation failed because the client did not have the necessary security privilege.";

/// Text of `WBEM_E_INVALID_OPERATOR`.
pub const WBEM_E_INVALID_OPERATOR_EN: &'static str = "Operator is not valid for this property type.";

/// Text of `WBEM_E_LOCAL_CREDENTIALS`.
pub const WBEM_E_LOCAL_CREDENTIALS_EN: &'static str =
    "User specified a username/password/authority on a local connection. The user must use a blank \
    username/password and rely on default security.";

/// Text of `WBEM_E_CANNOT_BE_ABSTRACT`.
pub const WBEM_E_CANNOT_BE_ABSTRACT_EN: &'static str =
    "Class was made abstract when its parent class is not abstract.";

/// Text of `WBEM_E_AMENDED_OBJECT`.
pub const WBEM_E_AMENDED_OBJECT_EN: &'static str =
    "Amended object was written without the WBEM_FLAG_USE_AMENDED_QUALIFIERS flag being specified.";

/// Text of `WBEM_E_CLIENT_TOO_SLOW`.
pub const WBEM_E_CLIENT_TOO_SLOW_EN: &'static str =
    "Client did not retrieve objects quickly enough from an enumeration. This constant is returned \
    when a client creates an enumeration object, but does not retrieve objects from the enumerator \
    in a timely fashion, causing the enumerator's object caches to back up.";

/// Text of `WBEM_E_NULL_SECURITY_DESCRIPTOR`.
pub const WBEM_E_NULL_SECURITY_DESCRIPTOR_EN: &'static str = "Null security descriptor was used.";

/// Text of `WBEM_E_TIMED_OUT`.
pub const WBEM_E_TIMED_OUT_EN: &'static str = "Operation timed out.";

/// Text of `WBEM_E_INVALID_ASSOCIATION`.
pub const WBEM_E_INVALID_ASSOCIATION_EN: &'static str = "Association is not valid.";

/// Text of `WBEM_E_AMBIGUOUS_OPERATION`.
pub const WBEM_E_AMBIGUOUS_OPERATION_EN: &'static str = "Operation was ambiguous.";

/// Text of `WBEM_E_QUOTA_VIOLATION`.
pub const WBEM_E_QUOTA_VIOLATION_EN: &'static str =
    "WMI is taking up too much memory. This can be caused by low memory availability or excessive \
    memory consumption by WMI.";

/// Text of `WBEM_E_TRANSACTION_CONFLICT`.
pub const WBEM_E_TRANSACTION_CONFLICT_EN: &'static str = "Operation resulted in a transaction conflict.";

/// Text of `WBEM_E_FORCED_ROLLBACK`.
pub const WBEM_E_FORCED_ROLLBACK_EN: &'static str = "Transaction forced a rollback.";

/// Text of `WBEM_E_UNSUPPORTED_LOCALE`.
pub const WBEM_E_UNSUPPORTED_LOCALE_EN: &'static str = "Locale used in the call is not supported.";

/// Text of `WBEM_E_HANDLE_OUT_OF_DATE`.
pub const WBEM_E_HANDLE_OUT_OF_DATE_EN: &'static str = "Object handle is out-of-date.";

/// Text of `WBEM_E_CONNECTION_FAILED`.
pub const WBEM_E_CONNECTION_FAILED_EN: &'static str = "Connection to the SQL database failed.";

/// Text of `WBEM_E_INVALID_HANDLE_REQUEST`.
pub const WBEM_E_INVALID_HANDLE_REQUEST_EN: &'static str = "Handle request was not valid.";

/// Text of `WBEM_E_PROPERTY_NAME_TOO_WIDE`.
pub const WBEM_E_PROPERTY_NAME_TOO_WIDE_EN: &'static str = "Property name contains more than 255 characters.";

/// Text of `WBEM_E_CLASS_NAME_TOO_WIDE`.
pub const WBEM_E_CLASS_NAME_TOO_WIDE_EN: &'static str = "Class name contains more than 255 characters.";

/// Text of `WBEM_E_METHOD_NAME_TOO_WIDE`.
pub const WBEM_E_METHOD_NAME_TOO_WIDE_EN: &'static str = "Method name contains more than 255 characters.";

/// Text of `WBEM_E_QUALIFIER_NAME_TOO_WIDE`.
pub const WBEM_E_QUALIFIER_NAME_TOO_WIDE_EN: &'static str = "Qualifier name contains more than 255 characters.";

/// Text of `WBEM_E_RERUN_COMMAND`.
pub const WBEM_E_RERUN_COMMAND_EN: &'static str =
    "The SQL command must be rerun because there is a deadlock in SQL. This can be returned only \
    when data is being stored in an SQL database.";

/// Text of `WBEM_E_DATABASE_VER_MISMATCH`.
pub const WBEM_E_DATABASE_VER_MISMATCH_EN: &'static str =
    "The database version does not match the version that the repository driver processes.";

/// Text of `WBEM_E_VETO_DELETE`.
pub const WBEM_E_VETO_DELETE_EN: &'static str =
    "WMI cannot execute the delete operation because the provider does not allow it.";

/// Text of `WBEM_E_VETO_PUT`.
pub const WBEM_E_VETO_PUT_EN: &'static str =
    "WMI cannot execute the put operation because the provider does not allow it.";

/// Text of `WBEM_E_INVALID_LOCALE`.
pub const WBEM_E_INVALID_LOCALE_EN: &'static str =
    "Specified locale identifier was not valid for the operation.";

/// Text of `WBEM_E_PROVIDER_SUSPENDED`.
pub const WBEM_E_PROVIDER_SUSPENDED_EN: &'static str = "Provider is suspended.";

/// Text of `WBEM_E_SYNCHRONIZATION_REQUIRED`.
pub const WBEM_E_SYNCHRONIZATION_REQUIRED_EN: &'static str =
    "Object must be written to the WMI repository and retrieved again before the requested \
    operation can succeed. This constant is returned when an object must be committed and \
    retrieved to see the property value.";

/// Text of `WBEM_E_NO_SCHEMA`.
pub const WBEM_E_NO_SCHEMA_EN: &'static str = "Operation cannot be completed; no schema is available.";

/// Text of `WBEM_E_PROVIDER_ALREADY_REGISTERED`.
pub const WBEM_E_PROVIDER_ALREADY_REGISTERED_EN: &'static str =
    "Provider cannot be registered because it is already registered.";

/// Text of `WBEM_E_PROVIDER_NOT_REGISTERED`.
pub const WBEM_E_PROVIDER_NOT_REGISTERED_EN: &'static str = "Provider was not registered.";

/// Text of `WBEM_E_FATAL_TRANSPORT_ERROR`.
pub const WBEM_E_FATAL_TRANSPORT_ERROR_EN: &'static str = "A fatal transport error occurred.";

/// Text of `WBEM_E_ENCRYPTED_CONNECTION_REQUIRED`.
pub const WBEM_E_ENCRYPTED_CONNECTION_REQUIRED_EN: &'static str =
    "User attempted to set a computer name or domain without an encrypted connection.";

/// Text of `WBEM_E_PROVIDER_TIMED_OUT`.
pub const WBEM_E_PROVIDER_TIMED_OUT_EN: &'static str =
    "A provider failed to report results within the specified timeout.";

/// Text of `WBEM_E_NO_KEY`.
pub const WBEM_E_NO_KEY_EN: &'static str = "User attempted to put an instance with no defined key.";

/// Text of `WBEM_E_PROVIDER_DISABLED`.
pub const WBEM_E_PROVIDER_DISABLED_EN: &'static str =
    "User attempted to register a provider instance but the COM server for the provider instance \
    was unloaded.";

/// Text of `WBEMESS_E_REGISTRATION_TOO_BROAD`.
pub const WBEMESS_E_REGISTRATION_TOO_BROAD_EN: &'static str =
    "Provider registration overlaps with the system event domain.";

/// Text of `WBEMESS_E_REGISTRATION_TOO_PRECISE`.
pub const WBEMESS_E_REGISTRATION_TOO_PRECISE_EN: &'static str = "A WITHIN clause was not used in this query.";

/// Text of `WBEMESS_E_AUTHZ_NOT_PRIVILEGED`.
pub const WBEMESS_E_AUTHZ_NOT_PRIVILEGED_EN: &'static str =
    "This computer does not have the necessary domain permissions to support the security \
    functions that relate to the created subscription instance. Contact the Domain Administrator \
    to get this computer added to the Windows Authorization Access Group.";

/// Text of `WBEMMOF_E_EXPECTED_QUALIFIER_NAME`.
pub const WBEMMOF_E_EXPECTED_QUALIFIER_NAME_EN: &'static str = "Expected a qualifier name.";

/// Text of `WBEMMOF_E_EXPECTED_SEMI`.
pub const WBEMMOF_E_EXPECTED_SEMI_EN: &'static str = "Expected semicolon or '='.";

/// Text of `WBEMMOF_E_EXPECTED_OPEN_BRACE`.
pub const WBEMMOF_E_EXPECTED_OPEN_BRACE_EN: &'static str = "Expected an opening brace.";

/// Text of `WBEMMOF_E_EXPECTED_CLOSE_BRACE`.
pub const WBEMMOF_E_EXPECTED_CLOSE_BRACE_EN: &'static str =
    "Missing closing brace or an illegal array element.";

/// Text of `WBEMMOF_E_EXPECTED_CLOSE_BRACKET`.
pub const WBEMMOF_E_EXPECTED_CLOSE_BRACKET_EN: &'static str = "Expected a closing bracket.";

/// Text of `WBEMMOF_E_EXPECTED_CLOSE_PAREN`.
pub const WBEMMOF_E_EXPECTED_CLOSE_PAREN_EN: &'static str = "Expected closing parenthesis.";

/// Text of `WBEMMOF_E_ILLEGAL_CONSTANT_VALUE`.
pub const WBEMMOF_E_ILLEGAL_CONSTANT_VALUE_EN: &'static str =
    "Numeric value out of range or strings without quotes.";

/// Text of `WBEMMOF_E_EXPECTED_TYPE_IDENTIFIER`.
pub const WBEMMOF_E_EXPECTED_TYPE_IDENTIFIER_EN: &'static str = "Expected a type identifier.";

/// Text of `WBEMMOF_E_EXPECTED_OPEN_PAREN`.
pub const WBEMMOF_E_EXPECTED_OPEN_PAREN_EN: &'static str = "Expected an open parenthesis.";

/// Text of `WBEMMOF_E_UNRECOGNIZED_TOKEN`.
pub const WBEMMOF_E_UNRECOGNIZED_TOKEN_EN: &'static str = "Unexpected token in the file.";

/// Text of `WBEMMOF_E_UNRECOGNIZED_TYPE`.
pub const WBEMMOF_E_UNRECOGNIZED_TYPE_EN: &'static str = "Unrecognized or unsupported type identifier.";

/// Text of `WBEMMOF_E_EXPECTED_PROPERTY_NAME`.
pub const WBEMMOF_E_EXPECTED_PROPERTY_NAME_EN: &'static str = "Expected property or method name.";

/// Text of `WBEMMOF_E_TYPEDEF_NOT_SUPPORTED`.
pub const WBEMMOF_E_TYPEDEF_NOT_SUPPORTED_EN: &'static str = "Typedefs and enumerated types are not supported.";

/// Text of `WBEMMOF_E_UNEXPECTED_ALIAS`.
pub const WBEMMOF_E_UNEXPECTED_ALIAS_EN: &'static str =
    "Only a reference to a class object can have an alias value.";

/// Text of `WBEMMOF_E_UNEXPECTED_ARRAY_INIT`.
pub const WBEMMOF_E_UNEXPECTED_ARRAY_INIT_EN: &'static str =
    "Unexpected array initialization. Arrays must be declared with [].";

/// Text of `WBEMMOF_E_INVALID_AMENDMENT_SYNTAX`.
pub const WBEMMOF_E_INVALID_AMENDMENT_SYNTAX_EN: &'static str = "Namespace path syntax is not valid.";

/// Text of `WBEMMOF_E_INVALID_DUPLICATE_AMENDMENT`.
pub const WBEMMOF_E_INVALID_DUPLICATE_AMENDMENT_EN: &'static str = "Duplicate amendment specifiers.";

/// Text of `WBEMMOF_E_INVALID_PRAGMA`.
pub const WBEMMOF_E_INVALID_PRAGMA_EN: &'static str = "#pragma must be followed by a valid keyword.";

/// Text of `WBEMMOF_E_INVALID_NAMESPACE_SYNTAX`.
pub const WBEMMOF_E_INVALID_NAMESPACE_SYNTAX_EN: &'static str = "Namespace path syntax is not valid.";

/// Text of `WBEMMOF_E_EXPECTED_CLASS_NAME`.
pub const WBEMMOF_E_EXPECTED_CLASS_NAME_EN: &'static str =
    "Unexpected character in class name must be an identifier.";

/// Text of `WBEMMOF_E_TYPE_MISMATCH`.
pub const WBEMMOF_E_TYPE_MISMATCH_EN: &'static str =
    "The value specified cannot be made into the appropriate type.";

/// Text of `WBEMMOF_E_EXPECTED_ALIAS_NAME`.
pub const WBEMMOF_E_EXPECTED_ALIAS_NAME_EN: &'static str =
    "Dollar sign must be followed by an alias name as an identifier.";

/// Text of `WBEMMOF_E_INVALID_CLASS_DECLARATION`.
pub const WBEMMOF_E_INVALID_CLASS_DECLARATION_EN: &'static str = "Class declaration is not valid.";

/// Text of `WBEMMOF_E_INVALID_INSTANCE_DECLARATION`.
pub const WBEMMOF_E_INVALID_INSTANCE_DECLARATION_EN: &'static str =
    "The instance declaration is not valid. It must start with \"instance of\"";

/// Text of `WBEMMOF_E_EXPECTED_DOLLAR`.
pub const WBEMMOF_E_EXPECTED_DOLLAR_EN: &'static str =
    "Expected dollar sign. An alias in the form \"$name\" must follow the \"as\" keyword.";

/// Text of `WBEMMOF_E_CIMTYPE_QUALIFIER`.
pub const WBEMMOF_E_CIMTYPE_QUALIFIER_EN: &'static str =
    "\"CIMTYPE\" qualifier cannot be specified directly in a MOF file. Use standard type notation.";

/// Text of `WBEMMOF_E_DUPLICATE_PROPERTY`.
pub const WBEMMOF_E_DUPLICATE_PROPERTY_EN: &'static str = "Duplicate property name was found in the MOF.";

/// Text of `WBEMMOF_E_INVALID_NAMESPACE_SPECIFICATION`.
pub const WBEMMOF_E_INVALID_NAMESPACE_SPECIFICATION_EN: &'static str =
    "Namespace syntax is not valid. References to other servers are not allowed.";

/// Text of `WBEMMOF_E_OUT_OF_RANGE`.
pub const WBEMMOF_E_OUT_OF_RANGE_EN: &'static str = "Value out of range.";

/// Text of `WBEMMOF_E_INVALID_FILE`.
pub const WBEMMOF_E_INVALID_FILE_EN: &'static str = "The file is not a valid text MOF file or binary MOF file.";

/// Text of `WBEMMOF_E_ALIASES_IN_EMBEDDED`.
pub const WBEMMOF_E_ALIASES_IN_EMBEDDED_EN: &'static str = "Embedded objects cannot be aliases.";

/// Text of `WBEMMOF_E_NULL_ARRAY_ELEM`.
pub const WBEMMOF_E_NULL_ARRAY_ELEM_EN: &'static str = "NULL elements in an array are not supported.";

/// Text of `WBEMMOF_E_DUPLICATE_QUALIFIER`.
pub const WBEMMOF_E_DUPLICATE_QUALIFIER_EN: &'static str = "Qualifier was used more than once on the object.";

/// Text of `WBEMMOF_E_EXPECTED_FLAVOR_TYPE`.
pub const WBEMMOF_E_EXPECTED_FLAVOR_TYPE_EN: &'static str =
    "Expected a flavor type such as ToInstance, ToSubClass, EnableOverride, or DisableOverride.";

/// Text of `WBEMMOF_E_INCOMPATIBLE_FLAVOR_TYPES`.
pub const WBEMMOF_E_INCOMPATIBLE_FLAVOR_TYPES_EN: &'static str =
    "Combining EnableOverride and DisableOverride on same qualifier is not legal.";

/// Text of `WBEMMOF_E_MULTIPLE_ALIASES`.
pub const WBEMMOF_E_MULTIPLE_ALIASES_EN: &'static str = "An alias cannot be used twice.";

/// Text of `WBEMMOF_E_INCOMPATIBLE_FLAVOR_TYPES2`.
pub const WBEMMOF_E_INCOMPATIBLE_FLAVOR_TYPES2_EN: &'static str =
    "Combining Restricted, and ToInstance or ToSubClass is not legal.";

/// Text of `WBEMMOF_E_NO_ARRAYS_RETURNED`.
pub const WBEMMOF_E_NO_ARRAYS_RETURNED_EN: &'static str = "Methods cannot return array values.";

/// Text of `WBEMMOF_E_MUST_BE_IN_OR_OUT`.
pub const WBEMMOF_E_MUST_BE_IN_OR_OUT_EN: &'static str = "Arguments must have an In or Out qualifier.";

/// Text of `WBEMMOF_E_INVALID_FLAGS_SYNTAX`.
pub const WBEMMOF_E_INVALID_FLAGS_SYNTAX_EN: &'static str = "Flags syntax is not valid.";

/// Text of `WBEMMOF_E_EXPECTED_BRACE_OR_BAD_TYPE`.
pub const WBEMMOF_E_EXPECTED_BRACE_OR_BAD_TYPE_EN: &'static str =
    "The final brace and semi-colon for a class are missing.";

/// Text of `WBEMMOF_E_UNSUPPORTED_CIMV22_QUAL_VALUE`.
pub const WBEMMOF_E_UNSUPPORTED_CIMV22_QUAL_VALUE_EN: &'static str =
    "A CIM version 2.2 feature is not supported for a qualifier value.";

/// Text of `WBEMMOF_E_UNSUPPORTED_CIMV22_DATA_TYPE`.
pub const WBEMMOF_E_UNSUPPORTED_CIMV22_DATA_TYPE_EN: &'static str =
    "The CIM version 2.2 data type is not supported.";

/// Text of `WBEMMOF_E_INVALID_DELETEINSTANCE_SYNTAX`.
pub const WBEMMOF_E_INVALID_DELETEINSTANCE_SYNTAX_EN: &'static str =
    "The delete instance syntax is not valid. It should be #pragma \
    DeleteInstance(\"instancepath\", FAIL|NOFAIL)";

/// Text of `WBEMMOF_E_INVALID_QUALIFIER_SYNTAX`.
pub const WBEMMOF_E_INVALID_QUALIFIER_SYNTAX_EN: &'static str =
    "The qualifier syntax is not valid. It should be \
    qualifiername:type=value,scope(class|instance), flavorname .";

/// Text of `WBEMMOF_E_QUALIFIER_USED_OUTSIDE_SCOPE`.
pub const WBEMMOF_E_QUALIFIER_USED_OUTSIDE_SCOPE_EN: &'static str =
    "The qualifier is used outside of its scope.";

/// Text of `WBEMMOF_E_ERROR_CREATING_TEMP_FILE`.
pub const WBEMMOF_E_ERROR_CREATING_TEMP_FILE_EN: &'static str =
    "Error creating temporary file. The temporary file is an intermediate stage in the MOF \
    compilation.";

/// Text of `WBEMMOF_E_ERROR_INVALID_INCLUDE_FILE`.
pub const WBEMMOF_E_ERROR_INVALID_INCLUDE_FILE_EN: &'static str =
    "A file included in the MOF by the preprocessor command #include is not valid.";

/// Text of `WBEMMOF_E_INVALID_DELETECLASS_SYNTAX`.
pub const WBEMMOF_E_INVALID_DELETECLASS_SYNTAX_EN: &'static str =
    "The syntax for the preprocessor commands #pragma deleteinstance or #pragma deleteclass is not \
    valid.";

/// Text of `WBEM_E_RETRY_LATER`.
pub const WBEM_E_RETRY_LATER_EN: &'static str = "Reserved for future use.";

/// Text of `WBEM_E_RESOURCE_CONTENTION`.
pub const WBEM_E_RESOURCE_CONTENTION_EN: &'static str = "Reserved for future use.";

/// The WMI status code `code` (as an unsigned 32-bit value): its constant's
/// name and its English description, for the codes that WMI defines.
pub open spec fn wbem_status(code: u32) -> Option<(Seq<char>, Seq<char>)> {
    match code {
        0x80041001u32 => Some(("WBEM_E_FAILED"@, WBEM_E_FAILED_EN@)),
        0x80041002u32 => Some(("WBEM_E_NOT_FOUND"@, WBEM_E_NOT_FOUND_EN@)),
        0x80041003u32 => Some(("WBEM_E_ACCESS_DENIED"@, WBEM_E_ACCESS_DENIED_EN@)),
        0x80041004u32 => Some(("WBEM_E_PROVIDER_FAILURE"@, WBEM_E_PROVIDER_FAILURE_EN@)),
        0x80041005u32 => Some(("WBEM_E_TYPE_MISMATCH"@, WBEM_E_TYPE_MISMATCH_EN@)),
        0x80041006u32 => Some(("WBEM_E_OUT_OF_MEMORY"@, WBEM_E_OUT_OF_MEMORY_EN@)),
        0x80041007u32 => Some(("WBEM_E_INVALID_CONTEXT"@, WBEM_E_INVALID_CONTEXT_EN@)),
        0x80041008u32 => Some(("WBEM_E_INVALID_PARAMETER"@, WBEM_E_INVALID_PARAMETER_EN@)),
        0x80041009u32 => Some(("WBEM_E_NOT_AVAILABLE"@, WBEM_E_NOT_AVAILABLE_EN@)),
        0x8004100Au32 => Some(("WBEM_E_CRITICAL_ERROR"@, WBEM_E_CRITICAL_ERROR_EN@)),
        0x8004100Bu32 => Some(("WBEM_E_INVALID_STREAM"@, WBEM_E_INVALID_STREAM_EN@)),
        0x8004100Cu32 => Some(("WBEM_E_NOT_SUPPORTED"@, WBEM_E_NOT_SUPPORTED_EN@)),
        0x8004100Du32 => Some(("WBEM_E_INVALID_SUPERCLASS"@, WBEM_E_INVALID_SUPERCLASS_EN@)),
        0x8004100Eu32 => Some(("WBEM_E_INVALID_NAMESPACE"@, WBEM_E_INVALID_NAMESPACE_EN@)),
        0x8004100Fu32 => Some(("WBEM_E_INVALID_OBJECT"@, WBEM_E_INVALID_OBJECT_EN@)),
        0x80041010u32 => Some(("WBEM_E_INVALID_CLASS"@, WBEM_E_INVALID_CLASS_EN@)),
        0x80041011u32 => Some(("WBEM_E_PROVIDER_NOT_FOUND"@, WBEM_E_PROVIDER_NOT_FOUND_EN@)),
        0x80041012u32 => Some(("WBEM_E_INVALID_PROVIDER_REGISTRATION"@, WBEM_E_INVALID_PROVIDER_REGISTRATION_EN@)),
        0x80041013u32 => Some(("WBEM_E_PROVIDER_LOAD_FAILURE"@, WBEM_E_PROVIDER_LOAD_FAILURE_EN@)),
        0x80041014u32 => Some(("WBEM_E_INITIALIZATION_FAILURE"@, WBEM_E_INITIALIZATION_FAILURE_EN@)),
        0x80041015u32 => Some(("WBEM_E_TRANSPORT_FAILURE"@, WBEM_E_TRANSPORT_FAILURE_EN@)),
        0x80041016u32 => Some(("WBEM_E_INVALID_OPERATION"@, WBEM_E_INVALID_OPERATION_EN@)),
        0x80041017u32 => Some(("WBEM_E_INVALID_QUERY"@, WBEM_E_INVALID_QUERY_EN@)),
        0x80041018u32 => Some(("WBEM_E_INVALID_QUERY_TYPE"@, WBEM_E_INVALID_QUERY_TYPE_EN@)),
        0x80041019u32 => Some(("WBEM_E_ALREADY_EXISTS"@, WBEM_E_ALREADY_EXISTS_EN@)),
        0x8004101Au32 => Some(("WBEM_E_OVERRIDE_NOT_ALLOWED"@, WBEM_E_OVERRIDE_NOT_ALLOWED_EN@)),
        0x8004101Bu32 => Some(("WBEM_E_PROPAGATED_QUALIFIER"@, WBEM_E_PROPAGATED_QUALIFIER_EN@)),
        0x8004101Cu32 => Some(("WBEM_E_PROPAGATED_PROPERTY"@, WBEM_E_PROPAGATED_PROPERTY_EN@)),
        0x8004101Du32 => Some(("WBEM_E_UNEXPECTED"@, WBEM_E_UNEXPECTED_EN@)),
        0x8004101Eu32 => Some(("WBEM_E_ILLEGAL_OPERATION"@, WBEM_E_ILLEGAL_OPERATION_EN@)),
        0x8004101Fu32 => Some(("WBEM_E_CANNOT_BE_KEY"@, WBEM_E_CANNOT_BE_KEY_EN@)),
        0x80041020u32 => Some(("WBEM_E_INCOMPLETE_CLASS"@, WBEM_E_INCOMPLETE_CLASS_EN@)),
        0x80041021u32 => Some(("WBEM_E_INVALID_SYNTAX"@, WBEM_E_INVALID_SYNTAX_EN@)),
        0x80041022u32 => Some(("WBEM_E_NONDECORATED_OBJECT"@, WBEM_E_NONDECORATED_OBJECT_EN@)),
        0x80041023u32 => Some(("WBEM_E_READ_ONLY"@, WBEM_E_READ_ONLY_EN@)),
        0x80041024u32 => Some(("WBEM_E_PROVIDER_NOT_CAPABLE"@, WBEM_E_PROVIDER_NOT_CAPABLE_EN@)),
        0x80041025u32 => Some(("WBEM_E_CLASS_HAS_CHILDREN"@, WBEM_E_CLASS_HAS_CHILDREN_EN@)),
        0x80041026u32 => Some(("WBEM_E_CLASS_HAS_INSTANCES"@, WBEM_E_CLASS_HAS_INSTANCES_EN@)),
        0x80041027u32 => Some(("WBEM_E_QUERY_NOT_IMPLEMENTED"@, WBEM_E_QUERY_NOT_IMPLEMENTED_EN@)),
        0x80041028u32 => Some(("WBEM_E_ILLEGAL_NULL"@, WBEM_E_ILLEGAL_NULL_EN@)),
        0x80041029u32 => Some(("WBEM_E_INVALID_QUALIFIER_TYPE"@, WBEM_E_INVALID_QUALIFIER_TYPE_EN@)),
        0x8004102Au32 => Some(("WBEM_E_INVALID_PROPERTY_TYPE"@, WBEM_E_INVALID_PROPERTY_TYPE_EN@)),
        0x8004102Bu32 => Some(("WBEM_E_VALUE_OUT_OF_RANGE"@, WBEM_E_VALUE_OUT_OF_RANGE_EN@)),
        0x8004102Cu32 => Some(("WBEM_E_CANNOT_BE_SINGLETON"@, WBEM_E_CANNOT_BE_SINGLETON_EN@)),
        0x8004102Du32 => Some(("WBEM_E_INVALID_CIM_TYPE"@, WBEM_E_INVALID_CIM_TYPE_EN@)),
        0x8004102Eu32 => Some(("WBEM_E_INVALID_METHOD"@, WBEM_E_INVALID_METHOD_EN@)),
        0x8004102Fu32 => Some(("WBEM_E_INVALID_METHOD_PARAMETERS"@, WBEM_E_INVALID_METHOD_PARAMETERS_EN@)),
        0x80041030u32 => Some(("WBEM_E_SYSTEM_PROPERTY"@, WBEM_E_SYSTEM_PROPERTY_EN@)),
        0x80041031u32 => Some(("WBEM_E_INVALID_PROPERTY"@, WBEM_E_INVALID_PROPERTY_EN@)),
        0x80041032u32 => Some(("WBEM_E_CALL_CANCELLED"@, WBEM_E_CALL_CANCELLED_EN@)),
        0x80041033u32 => Some(("WBEM_E_SHUTTING_DOWN"@, WBEM_E_SHUTTING_DOWN_EN@)),
        0x80041034u32 => Some(("WBEM_E_PROPAGATED_METHOD"@, WBEM_E_PROPAGATED_METHOD_EN@)),
        0x80041035u32 => Some(("WBEM_E_UNSUPPORTED_PARAMETER"@, WBEM_E_UNSUPPORTED_PARAMETER_EN@)),
        0x80041036u32 => Some(("WBEM_E_MISSING_PARAMETER_ID"@, WBEM_E_MISSING_PARAMETER_ID_EN@)),
        0x80041037u32 => Some(("WBEM_E_INVALID_PARAMETER_ID"@, WBEM_E_INVALID_PARAMETER_ID_EN@)),
        0x80041038u32 => Some(("WBEM_E_NONCONSECUTIVE_PARAMETER_IDS"@, WBEM_E_NONCONSECUTIVE_PARAMETER_IDS_EN@)),
        0x80041039u32 => Some(("WBEM_E_PARAMETER_ID_ON_RETVAL"@, WBEM_E_PARAMETER_ID_ON_RETVAL_EN@)),
        0x8004103Au32 => Some(("WBEM_E_INVALID_OBJECT_PATH"@, WBEM_E_INVALID_OBJECT_PATH_EN@)),
        0x8004103Bu32 => Some(("WBEM_E_OUT_OF_DISK_SPACE"@, WBEM_E_OUT_OF_DISK_SPACE_EN@)),
        0x8004103Cu32 => Some(("WBEM_E_BUFFER_TOO_SMALL"@, WBEM_E_BUFFER_TOO_SMALL_EN@)),
        0x8004103Du32 => Some(("WBEM_E_UNSUPPORTED_PUT_EXTENSION"@, WBEM_E_UNSUPPORTED_PUT_EXTENSION_EN@)),
        0x8004103Eu32 => Some(("WBEM_E_UNKNOWN_OBJECT_TYPE"@, WBEM_E_UNKNOWN_OBJECT_TYPE_EN@)),
        0x8004103Fu32 => Some(("WBEM_E_UNKNOWN_PACKET_TYPE"@, WBEM_E_UNKNOWN_PACKET_TYPE_EN@)),
        0x80041040u32 => Some(("WBEM_E_MARSHAL_VERSION_MISMATCH"@, WBEM_E_MARSHAL_VERSION_MISMATCH_EN@)),
        0x80041041u32 => Some(("WBEM_E_MARSHAL_INVALID_SIGNATURE"@, WBEM_E_MARSHAL_INVALID_SIGNATURE_EN@)),
        0x80041042u32 => Some(("WBEM_E_INVALID_QUALIFIER"@, WBEM_E_INVALID_QUALIFIER_EN@)),
        0x80041043u32 => Some(("WBEM_E_INVALID_DUPLICATE_PARAMETER"@, WBEM_E_INVALID_DUPLICATE_PARAMETER_EN@)),
        0x80041044u32 => Some(("WBEM_E_TOO_MUCH_DATA"@, WBEM_E_TOO_MUCH_DATA_EN@)),
        0x80041045u32 => Some(("WBEM_E_SERVER_TOO_BUSY"@, WBEM_E_SERVER_TOO_BUSY_EN@)),
        0x80041046u32 => Some(("WBEM_E_INVALID_FLAVOR"@, WBEM_E_INVALID_FLAVOR_EN@)),
        0x80041047u32 => Some(("WBEM_E_CIRCULAR_REFERENCE"@, WBEM_E_CIRCULAR_REFERENCE_EN@)),
        0x80041048u32 => Some(("WBEM_E_UNSUPPORTED_CLASS_UPDATE"@, WBEM_E_UNSUPPORTED_CLASS_UPDATE_EN@)),
        0x80041049u32 => Some(("WBEM_E_CANNOT_CHANGE_KEY_INHERITANCE"@, WBEM_E_CANNOT_CHANGE_KEY_INHERITANCE_EN@)),
        0x80041050u32 => Some(("WBEM_E_CANNOT_CHANGE_INDEX_INHERITANCE"@, WBEM_E_CANNOT_CHANGE_INDEX_INHERITANCE_EN@)),
        0x80041051u32 => Some(("WBEM_E_TOO_MANY_PROPERTIES"@, WBEM_E_TOO_MANY_PROPERTIES_EN@)),
        0x80041052u32 => Some(("WBEM_E_UPDATE_TYPE_MISMATCH"@, WBEM_E_UPDATE_TYPE_MISMATCH_EN@)),
        0x80041053u32 => Some(("WBEM_E_UPDATE_OVERRIDE_NOT_ALLOWED"@, WBEM_E_UPDATE_OVERRIDE_NOT_ALLOWED_EN@)),
        0x80041054u32 => Some(("WBEM_E_UPDATE_PROPAGATED_METHOD"@, WBEM_E_UPDATE_PROPAGATED_METHOD_EN@)),
        0x80041055u32 => Some(("WBEM_E_METHOD_NOT_IMPLEMENTED"@, WBEM_E_METHOD_NOT_IMPLEMENTED_EN@)),
        0x80041056u32 => Some(("WBEM_E_METHOD_DISABLED"@, WBEM_E_METHOD_DISABLED_EN@)),
        0x80041057u32 => Some(("WBEM_E_REFRESHER_BUSY"@, WBEM_E_REFRESHER_BUSY_EN@)),
        0x80041058u32 => Some(("WBEM_E_UNPARSABLE_QUERY"@, WBEM_E_UNPARSABLE_QUERY_EN@)),
        0x80041059u32 => Some(("WBEM_E_NOT_EVENT_CLASS"@, WBEM_E_NOT_EVENT_CLASS_EN@)),
        0x8004105Au32 => Some(("WBEM_E_MISSING_GROUP_WITHIN"@, WBEM_E_MISSING_GROUP_WITHIN_EN@)),
        0x8004105Bu32 => Some(("WBEM_E_MISSING_AGGREGATION_LIST"@, WBEM_E_MISSING_AGGREGATION_LIST_EN@)),
        0x8004105Cu32 => Some(("WBEM_E_PROPERTY_NOT_AN_OBJECT"@, WBEM_E_PROPERTY_NOT_AN_OBJECT_EN@)),
        0x8004105Du32 => Some(("WBEM_E_AGGREGATING_BY_OBJECT"@, WBEM_E_AGGREGATING_BY_OBJECT_EN@)),
        0x8004105Fu32 => Some(("WBEM_E_UNINTERPRETABLE_PROVIDER_QUERY"@, WBEM_E_UNINTERPRETABLE_PROVIDER_QUERY_EN@)),
        0x80041060u32 => Some(("WBEM_E_BACKUP_RESTORE_WINMGMT_RUNNING"@, WBEM_E_BACKUP_RESTORE_WINMGMT_RUNNING_EN@)),
        0x80041061u32 => Some(("WBEM_E_QUEUE_OVERFLOW"@, WBEM_E_QUEUE_OVERFLOW_EN@)),
        0x80041062u32 => Some(("WBEM_E_PRIVILEGE_NOT_HELD"@, WBEM_E_PRIVILEGE_NOT_HELD_EN@)),
        0x80041063u32 => Some(("WBEM_E_INVALID_OPERATOR"@, WBEM_E_INVALID_OPERATOR_EN@)),
        0x80041064u32 => Some(("WBEM_E_LOCAL_CREDENTIALS"@, WBEM_E_LOCAL_CREDENTIALS_EN@)),
        0x80041065u32 => Some(("WBEM_E_CANNOT_BE_ABSTRACT"@, WBEM_E_CANNOT_BE_ABSTRACT_EN@)),
        0x80041066u32 => Some(("WBEM_E_AMENDED_OBJECT"@, WBEM_E_AMENDED_OBJECT_EN@)),
        0x80041067u32 => Some(("WBEM_E_CLIENT_TOO_SLOW"@, WBEM_E_CLIENT_TOO_SLOW_EN@)),
        0x80041068u32 => Some(("WBEM_E_NULL_SECURITY_DESCRIPTOR"@, WBEM_E_NULL_SECURITY_DESCRIPTOR_EN@)),
        0x80041069u32 => Some(("WBEM_E_TIMED_OUT"@, WBEM_E_TIMED_OUT_EN@)),
        0x8004106Au32 => Some(("WBEM_E_INVALID_ASSOCIATION"@, WBEM_E_INVALID_ASSOCIATION_EN@)),
        0x8004106Bu32 => Some(("WBEM_E_AMBIGUOUS_OPERATION"@, WBEM_E_AMBIGUOUS_OPERATION_EN@)),
        0x8004106Cu32 => Some(("WBEM_E_QUOTA_VIOLATION"@, WBEM_E_QUOTA_VIOLATION_EN@)),
        0x8004106Du32 => Some(("WBEM_E_TRANSACTION_CONFLICT"@, WBEM_E_TRANSACTION_CONFLICT_EN@)),
        0x8004106Eu32 => Some(("WBEM_E_FORCED_ROLLBACK"@, WBEM_E_FORCED_ROLLBACK_EN@)),
        0x8004106Fu32 => Some(("WBEM_E_UNSUPPORTED_LOCALE"@, WBEM_E_UNSUPPORTED_LOCALE_EN@)),
        0x80041070u32 => Some(("WBEM_E_HANDLE_OUT_OF_DATE"@, WBEM_E_HANDLE_OUT_OF_DATE_EN@)),
        0x80041071u32 => Some(("WBEM_E_CONNECTION_FAILED"@, WBEM_E_CONNECTION_FAILED_EN@)),
        0x80041072u32 => Some(("WBEM_E_INVALID_HANDLE_REQUEST"@, WBEM_E_INVALID_HANDLE_REQUEST_EN@)),
        0x80041073u32 => Some(("WBEM_E_PROPERTY_NAME_TOO_WIDE"@, WBEM_E_PROPERTY_NAME_TOO_WIDE_EN@)),
        0x80041074u32 => Some(("WBEM_E_CLASS_NAME_TOO_WIDE"@, WBEM_E_CLASS_NAME_TOO_WIDE_EN@)),
        0x80041075u32 => Some(("WBEM_E_METHOD_NAME_TOO_WIDE"@, WBEM_E_METHOD_NAME_TOO_WIDE_EN@)),
        0x80041076u32 => Some(("WBEM_E_QUALIFIER_NAME_TOO_WIDE"@, WBEM_E_QUALIFIER_NAME_TOO_WIDE_EN@)),
        0x80041077u32 => Some(("WBEM_E_RERUN_COMMAND"@, WBEM_E_RERUN_COMMAND_EN@)),
        0x80041078u32 => Some(("WBEM_E_DATABASE_VER_MISMATCH"@, WBEM_E_DATABASE_VER_MISMATCH_EN@)),
        0x80041079u32 => Some(("WBEM_E_VETO_DELETE"@, WBEM_E_VETO_DELETE_EN@)),
        0x8004107Au32 => Some(("WBEM_E_VETO_PUT"@, WBEM_E_VETO_PUT_EN@)),
        0x80041080u32 => Some(("WBEM_E_INVALID_LOCALE"@, WBEM_E_INVALID_LOCALE_EN@)),
        0x80041081u32 => Some(("WBEM_E_PROVIDER_SUSPENDED"@, WBEM_E_PROVIDER_SUSPENDED_EN@)),
        0x80041082u32 => Some(("WBEM_E_SYNCHRONIZATION_REQUIRED"@, WBEM_E_SYNCHRONIZATION_REQUIRED_EN@)),
        0x80041083u32 => Some(("WBEM_E_NO_SCHEMA"@, WBEM_E_NO_SCHEMA_EN@)),
        0x80041084u32 => Some(("WBEM_E_PROVIDER_ALREADY_REGISTERED"@, WBEM_E_PROVIDER_ALREADY_REGISTERED_EN@)),
        0x80041085u32 => Some(("WBEM_E_PROVIDER_NOT_REGISTERED"@, WBEM_E_PROVIDER_NOT_REGISTERED_EN@)),
        0x80041086u32 => Some(("WBEM_E_FATAL_TRANSPORT_ERROR"@, WBEM_E_FATAL_TRANSPORT_ERROR_EN@)),
        0x80041087u32 => Some(("WBEM_E_ENCRYPTED_CONNECTION_REQUIRED"@, WBEM_E_ENCRYPTED_CONNECTION_REQUIRED_EN@)),
        0x80041088u32 => Some(("WBEM_E_PROVIDER_TIMED_OUT"@, WBEM_E_PROVIDER_TIMED_OUT_EN@)),
        0x80041089u32 => Some(("WBEM_E_NO_KEY"@, WBEM_E_NO_KEY_EN@)),
        0x8004108Au32 => Some(("WBEM_E_PROVIDER_DISABLED"@, WBEM_E_PROVIDER_DISABLED_EN@)),
        0x80042001u32 => Some(("WBEMESS_E_REGISTRATION_TOO_BROAD"@, WBEMESS_E_REGISTRATION_TOO_BROAD_EN@)),
        0x80042002u32 => Some(("WBEMESS_E_REGISTRATION_TOO_PRECISE"@, WBEMESS_E_REGISTRATION_TOO_PRECISE_EN@)),
        0x80042003u32 => Some(("WBEMESS_E_AUTHZ_NOT_PRIVILEGED"@, WBEMESS_E_AUTHZ_NOT_PRIVILEGED_EN@)),
        0x80044001u32 => Some(("WBEMMOF_E_EXPECTED_QUALIFIER_NAME"@, WBEMMOF_E_EXPECTED_QUALIFIER_NAME_EN@)),
        0x80044002u32 => Some(("WBEMMOF_E_EXPECTED_SEMI"@, WBEMMOF_E_EXPECTED_SEMI_EN@)),
        0x80044003u32 => Some(("WBEMMOF_E_EXPECTED_OPEN_BRACE"@, WBEMMOF_E_EXPECTED_OPEN_BRACE_EN@)),
        0x80044004u32 => Some(("WBEMMOF_E_EXPECTED_CLOSE_BRACE"@, WBEMMOF_E_EXPECTED_CLOSE_BRACE_EN@)),
        0x80044005u32 => Some(("WBEMMOF_E_EXPECTED_CLOSE_BRACKET"@, WBEMMOF_E_EXPECTED_CLOSE_BRACKET_EN@)),
        0x80044006u32 => Some(("WBEMMOF_E_EXPECTED_CLOSE_PAREN"@, WBEMMOF_E_EXPECTED_CLOSE_PAREN_EN@)),
        0x80044007u32 => Some(("WBEMMOF_E_ILLEGAL_CONSTANT_VALUE"@, WBEMMOF_E_ILLEGAL_CONSTANT_VALUE_EN@)),
        0x80044008u32 => Some(("WBEMMOF_E_EXPECTED_TYPE_IDENTIFIER"@, WBEMMOF_E_EXPECTED_TYPE_IDENTIFIER_EN@)),
        0x80044009u32 => Some(("WBEMMOF_E_EXPECTED_OPEN_PAREN"@, WBEMMOF_E_EXPECTED_OPEN_PAREN_EN@)),
        0x8004400Au32 => Some(("WBEMMOF_E_UNRECOGNIZED_TOKEN"@, WBEMMOF_E_UNRECOGNIZED_TOKEN_EN@)),
        0x8004400Bu32 => Some(("WBEMMOF_E_UNRECOGNIZED_TYPE"@, WBEMMOF_E_UNRECOGNIZED_TYPE_EN@)),
        0x8004400Cu32 => Some(("WBEMMOF_E_EXPECTED_PROPERTY_NAME"@, WBEMMOF_E_EXPECTED_PROPERTY_NAME_EN@)),
        0x8004400Du32 => Some(("WBEMMOF_E_TYPEDEF_NOT_SUPPORTED"@, WBEMMOF_E_TYPEDEF_NOT_SUPPORTED_EN@)),
        0x8004400Eu32 => Some(("WBEMMOF_E_UNEXPECTED_ALIAS"@, WBEMMOF_E_UNEXPECTED_ALIAS_EN@)),
        0x8004400Fu32 => Some(("WBEMMOF_E_UNEXPECTED_ARRAY_INIT"@, WBEMMOF_E_UNEXPECTED_ARRAY_INIT_EN@)),
        0x80044010u32 => Some(("WBEMMOF_E_INVALID_AMENDMENT_SYNTAX"@, WBEMMOF_E_INVALID_AMENDMENT_SYNTAX_EN@)),
        0x80044011u32 => Some(("WBEMMOF_E_INVALID_DUPLICATE_AMENDMENT"@, WBEMMOF_E_INVALID_DUPLICATE_AMENDMENT_EN@)),
        0x80044012u32 => Some(("WBEMMOF_E_INVALID_PRAGMA"@, WBEMMOF_E_INVALID_PRAGMA_EN@)),
        0x80044013u32 => Some(("WBEMMOF_E_INVALID_NAMESPACE_SYNTAX"@, WBEMMOF_E_INVALID_NAMESPACE_SYNTAX_EN@)),
        0x80044014u32 => Some(("WBEMMOF_E_EXPECTED_CLASS_NAME"@, WBEMMOF_E_EXPECTED_CLASS_NAME_EN@)),
        0x80044015u32 => Some(("WBEMMOF_E_TYPE_MISMATCH"@, WBEMMOF_E_TYPE_MISMATCH_EN@)),
        0x80044016u32 => Some(("WBEMMOF_E_EXPECTED_ALIAS_NAME"@, WBEMMOF_E_EXPECTED_ALIAS_NAME_EN@)),
        0x80044017u32 => Some(("WBEMMOF_E_INVALID_CLASS_DECLARATION"@, WBEMMOF_E_INVALID_CLASS_DECLARATION_EN@)),
        0x80044018u32 => Some(("WBEMMOF_E_INVALID_INSTANCE_DECLARATION"@, WBEMMOF_E_INVALID_INSTANCE_DECLARATION_EN@)),
        0x80044019u32 => Some(("WBEMMOF_E_EXPECTED_DOLLAR"@, WBEMMOF_E_EXPECTED_DOLLAR_EN@)),
        0x8004401Au32 => Some(("WBEMMOF_E_CIMTYPE_QUALIFIER"@, WBEMMOF_E_CIMTYPE_QUALIFIER_EN@)),
        0x8004401Bu32 => Some(("WBEMMOF_E_DUPLICATE_PROPERTY"@, WBEMMOF_E_DUPLICATE_PROPERTY_EN@)),
        0x8004401Cu32 => Some(("WBEMMOF_E_INVALID_NAMESPACE_SPECIFICATION"@, WBEMMOF_E_INVALID_NAMESPACE_SPECIFICATION_EN@)),
        0x8004401Du32 => Some(("WBEMMOF_E_OUT_OF_RANGE"@, WBEMMOF_E_OUT_OF_RANGE_EN@)),
        0x8004401Eu32 => Some(("WBEMMOF_E_INVALID_FILE"@, WBEMMOF_E_INVALID_FILE_EN@)),
        0x8004401Fu32 => Some(("WBEMMOF_E_ALIASES_IN_EMBEDDED"@, WBEMMOF_E_ALIASES_IN_EMBEDDED_EN@)),
        0x80044020u32 => Some(("WBEMMOF_E_NULL_ARRAY_ELEM"@, WBEMMOF_E_NULL_ARRAY_ELEM_EN@)),
        0x80044021u32 => Some(("WBEMMOF_E_DUPLICATE_QUALIFIER"@, WBEMMOF_E_DUPLICATE_QUALIFIER_EN@)),
        0x80044022u32 => Some(("WBEMMOF_E_EXPECTED_FLAVOR_TYPE"@, WBEMMOF_E_EXPECTED_FLAVOR_TYPE_EN@)),
        0x80044023u32 => Some(("WBEMMOF_E_INCOMPATIBLE_FLAVOR_TYPES"@, WBEMMOF_E_INCOMPATIBLE_FLAVOR_TYPES_EN@)),
        0x80044024u32 => Some(("WBEMMOF_E_MULTIPLE_ALIASES"@, WBEMMOF_E_MULTIPLE_ALIASES_EN@)),
        0x80044025u32 => Some(("WBEMMOF_E_INCOMPATIBLE_FLAVOR_TYPES2"@, WBEMMOF_E_INCOMPATIBLE_FLAVOR_TYPES2_EN@)),
        0x80044026u32 => Some(("WBEMMOF_E_NO_ARRAYS_RETURNED"@, WBEMMOF_E_NO_ARRAYS_RETURNED_EN@)),
        0x80044027u32 => Some(("WBEMMOF_E_MUST_BE_IN_OR_OUT"@, WBEMMOF_E_MUST_BE_IN_OR_OUT_EN@)),
        0x80044028u32 => Some(("WBEMMOF_E_INVALID_FLAGS_SYNTAX"@, WBEMMOF_E_INVALID_FLAGS_SYNTAX_EN@)),
        0x80044029u32 => Some(("WBEMMOF_E_EXPECTED_BRACE_OR_BAD_TYPE"@, WBEMMOF_E_EXPECTED_BRACE_OR_BAD_TYPE_EN@)),
        0x8004402Au32 => Some(("WBEMMOF_E_UNSUPPORTED_CIMV22_QUAL_VALUE"@, WBEMMOF_E_UNSUPPORTED_CIMV22_QUAL_VALUE_EN@)),
        0x8004402Bu32 => Some(("WBEMMOF_E_UNSUPPORTED_CIMV22_DATA_TYPE"@, WBEMMOF_E_UNSUPPORTED_CIMV22_DATA_TYPE_EN@)),
        0x8004402Cu32 => Some(("WBEMMOF_E_INVALID_DELETEINSTANCE_SYNTAX"@, WBEMMOF_E_INVALID_DELETEINSTANCE_SYNTAX_EN@)),
        0x8004402Du32 => Some(("WBEMMOF_E_INVALID_QUALIFIER_SYNTAX"@, WBEMMOF_E_INVALID_QUALIFIER_SYNTAX_EN@)),
        0x8004402Eu32 => Some(("WBEMMOF_E_QUALIFIER_USED_OUTSIDE_SCOPE"@, WBEMMOF_E_QUALIFIER_USED_OUTSIDE_SCOPE_EN@)),
        0x8004402Fu32 => Some(("WBEMMOF_E_ERROR_CREATING_TEMP_FILE"@, WBEMMOF_E_ERROR_CREATING_TEMP_FILE_EN@)),
        0x80044030u32 => Some(("WBEMMOF_E_ERROR_INVALID_INCLUDE_FILE"@, WBEMMOF_E_ERROR_INVALID_INCLUDE_FILE_EN@)),
        0x80044031u32 => Some(("WBEMMOF_E_INVALID_DELETECLASS_SYNTAX"@, WBEMMOF_E_INVALID_DELETECLASS_SYNTAX_EN@)),
        0x80043001u32 => Some(("WBEM_E_RETRY_LATER"@, WBEM_E_RETRY_LATER_EN@)),
        0x80043002u32 => Some(("WBEM_E_RESOURCE_CONTENTION"@, WBEM_E_RESOURCE_CONTENTION_EN@)),
        _ => None,
    }
}

fn wbem_status_entry(code: u32) -> (r: Option<(&'static str, &'static str)>)
    ensures
        match wbem_status(code) {
            Some(e) => r matches Some(p) && p.0@ == e.0 && p.1@ == e.1,
            None => r is None,
        },
{
    match code {
        0x80041001u32 => Some(("WBEM_E_FAILED", WBEM_E_FAILED_EN)),
        0x80041002u32 => Some(("WBEM_E_NOT_FOUND", WBEM_E_NOT_FOUND_EN)),
        0x80041003u32 => Some(("WBEM_E_ACCESS_DENIED", WBEM_E_ACCESS_DENIED_EN)),
        0x80041004u32 => Some(("WBEM_E_PROVIDER_FAILURE", WBEM_E_PROVIDER_FAILURE_EN)),
        0x80041005u32 => Some(("WBEM_E_TYPE_MISMATCH", WBEM_E_TYPE_MISMATCH_EN)),
        0x80041006u32 => Some(("WBEM_E_OUT_OF_MEMORY", WBEM_E_OUT_OF_MEMORY_EN)),
        0x80041007u32 => Some(("WBEM_E_INVALID_CONTEXT", WBEM_E_INVALID_CONTEXT_EN)),
        0x80041008u32 => Some(("WBEM_E_INVALID_PARAMETER", WBEM_E_INVALID_PARAMETER_EN)),
        0x80041009u32 => Some(("WBEM_E_NOT_AVAILABLE", WBEM_E_NOT_AVAILABLE_EN)),
        0x8004100Au32 => Some(("WBEM_E_CRITICAL_ERROR", WBEM_E_CRITICAL_ERROR_EN)),
        0x8004100Bu32 => Some(("WBEM_E_INVALID_STREAM", WBEM_E_INVALID_STREAM_EN)),
        0x8004100Cu32 => Some(("WBEM_E_NOT_SUPPORTED", WBEM_E_NOT_SUPPORTED_EN)),
        0x8004100Du32 => Some(("WBEM_E_INVALID_SUPERCLASS", WBEM_E_INVALID_SUPERCLASS_EN)),
        0x8004100Eu32 => Some(("WBEM_E_INVALID_NAMESPACE", WBEM_E_INVALID_NAMESPACE_EN)),
        0x8004100Fu32 => Some(("WBEM_E_INVALID_OBJECT", WBEM_E_INVALID_OBJECT_EN)),
        0x80041010u32 => Some(("WBEM_E_INVALID_CLASS", WBEM_E_INVALID_CLASS_EN)),
        0x80041011u32 => Some(("WBEM_E_PROVIDER_NOT_FOUND", WBEM_E_PROVIDER_NOT_FOUND_EN)),
        0x80041012u32 => Some(("WBEM_E_INVALID_PROVIDER_REGISTRATION", WBEM_E_INVALID_PROVIDER_REGISTRATION_EN)),
        0x80041013u32 => Some(("WBEM_E_PROVIDER_LOAD_FAILURE", WBEM_E_PROVIDER_LOAD_FAILURE_EN)),
        0x80041014u32 => Some(("WBEM_E_INITIALIZATION_FAILURE", WBEM_E_INITIALIZATION_FAILURE_EN)),
        0x80041015u32 => Some(("WBEM_E_TRANSPORT_FAILURE", WBEM_E_TRANSPORT_FAILURE_EN)),
        0x80041016u32 => Some(("WBEM_E_INVALID_OPERATION", WBEM_E_INVALID_OPERATION_EN)),
        0x80041017u32 => Some(("WBEM_E_INVALID_QUERY", WBEM_E_INVALID_QUERY_EN)),
        0x80041018u32 => Some(("WBEM_E_INVALID_QUERY_TYPE", WBEM_E_INVALID_QUERY_TYPE_EN)),
        0x80041019u32 => Some(("WBEM_E_ALREADY_EXISTS", WBEM_E_ALREADY_EXISTS_EN)),
        0x8004101Au32 => Some(("WBEM_E_OVERRIDE_NOT_ALLOWED", WBEM_E_OVERRIDE_NOT_ALLOWED_EN)),
        0x8004101Bu32 => Some(("WBEM_E_PROPAGATED_QUALIFIER", WBEM_E_PROPAGATED_QUALIFIER_EN)),
        0x8004101Cu32 => Some(("WBEM_E_PROPAGATED_PROPERTY", WBEM_E_PROPAGATED_PROPERTY_EN)),
        0x8004101Du32 => Some(("WBEM_E_UNEXPECTED", WBEM_E_UNEXPECTED_EN)),
        0x8004101Eu32 => Some(("WBEM_E_ILLEGAL_OPERATION", WBEM_E_ILLEGAL_OPERATION_EN)),
        0x8004101Fu32 => Some(("WBEM_E_CANNOT_BE_KEY", WBEM_E_CANNOT_BE_KEY_EN)),
        0x80041020u32 => Some(("WBEM_E_INCOMPLETE_CLASS", WBEM_E_INCOMPLETE_CLASS_EN)),
        0x80041021u32 => Some(("WBEM_E_INVALID_SYNTAX", WBEM_E_INVALID_SYNTAX_EN)),
        0x80041022u32 => Some(("WBEM_E_NONDECORATED_OBJECT", WBEM_E_NONDECORATED_OBJECT_EN)),
        0x80041023u32 => Some(("WBEM_E_READ_ONLY", WBEM_E_READ_ONLY_EN)),
        0x80041024u32 => Some(("WBEM_E_PROVIDER_NOT_CAPABLE", WBEM_E_PROVIDER_NOT_CAPABLE_EN)),
        0x80041025u32 => Some(("WBEM_E_CLASS_HAS_CHILDREN", WBEM_E_CLASS_HAS_CHILDREN_EN)),
        0x80041026u32 => Some(("WBEM_E_CLASS_HAS_INSTANCES", WBEM_E_CLASS_HAS_INSTANCES_EN)),
        0x80041027u32 => Some(("WBEM_E_QUERY_NOT_IMPLEMENTED", WBEM_E_QUERY_NOT_IMPLEMENTED_EN)),
        0x80041028u32 => Some(("WBEM_E_ILLEGAL_NULL", WBEM_E_ILLEGAL_NULL_EN)),
        0x80041029u32 => Some(("WBEM_E_INVALID_QUALIFIER_TYPE", WBEM_E_INVALID_QUALIFIER_TYPE_EN)),
        0x8004102Au32 => Some(("WBEM_E_INVALID_PROPERTY_TYPE", WBEM_E_INVALID_PROPERTY_TYPE_EN)),
        0x8004102Bu32 => Some(("WBEM_E_VALUE_OUT_OF_RANGE", WBEM_E_VALUE_OUT_OF_RANGE_EN)),
        0x8004102Cu32 => Some(("WBEM_E_CANNOT_BE_SINGLETON", WBEM_E_CANNOT_BE_SINGLETON_EN)),
        0x8004102Du32 => Some(("WBEM_E_INVALID_CIM_TYPE", WBEM_E_INVALID_CIM_TYPE_EN)),
        0x8004102Eu32 => Some(("WBEM_E_INVALID_METHOD", WBEM_E_INVALID_METHOD_EN)),
        0x8004102Fu32 => Some(("WBEM_E_INVALID_METHOD_PARAMETERS", WBEM_E_INVALID_METHOD_PARAMETERS_EN)),
        0x80041030u32 => Some(("WBEM_E_SYSTEM_PROPERTY", WBEM_E_SYSTEM_PROPERTY_EN)),
        0x80041031u32 => Some(("WBEM_E_INVALID_PROPERTY", WBEM_E_INVALID_PROPERTY_EN)),
        0x80041032u32 => Some(("WBEM_E_CALL_CANCELLED", WBEM_E_CALL_CANCELLED_EN)),
        0x80041033u32 => Some(("WBEM_E_SHUTTING_DOWN", WBEM_E_SHUTTING_DOWN_EN)),
        0x80041034u32 => Some(("WBEM_E_PROPAGATED_METHOD", WBEM_E_PROPAGATED_METHOD_EN)),
        0x80041035u32 => Some(("WBEM_E_UNSUPPORTED_PARAMETER", WBEM_E_UNSUPPORTED_PARAMETER_EN)),
        0x80041036u32 => Some(("WBEM_E_MISSING_PARAMETER_ID", WBEM_E_MISSING_PARAMETER_ID_EN)),
        0x80041037u32 => Some(("WBEM_E_INVALID_PARAMETER_ID", WBEM_E_INVALID_PARAMETER_ID_EN)),
        0x80041038u32 => Some(("WBEM_E_NONCONSECUTIVE_PARAMETER_IDS", WBEM_E_NONCONSECUTIVE_PARAMETER_IDS_EN)),
        0x80041039u32 => Some(("WBEM_E_PARAMETER_ID_ON_RETVAL", WBEM_E_PARAMETER_ID_ON_RETVAL_EN)),
        0x8004103Au32 => Some(("WBEM_E_INVALID_OBJECT_PATH", WBEM_E_INVALID_OBJECT_PATH_EN)),
        0x8004103Bu32 => Some(("WBEM_E_OUT_OF_DISK_SPACE", WBEM_E_OUT_OF_DISK_SPACE_EN)),
        0x8004103Cu32 => Some(("WBEM_E_BUFFER_TOO_SMALL", WBEM_E_BUFFER_TOO_SMALL_EN)),
        0x8004103Du32 => Some(("WBEM_E_UNSUPPORTED_PUT_EXTENSION", WBEM_E_UNSUPPORTED_PUT_EXTENSION_EN)),
        0x8004103Eu32 => Some(("WBEM_E_UNKNOWN_OBJECT_TYPE", WBEM_E_UNKNOWN_OBJECT_TYPE_EN)),
        0x8004103Fu32 => Some(("WBEM_E_UNKNOWN_PACKET_TYPE", WBEM_E_UNKNOWN_PACKET_TYPE_EN)),
        0x80041040u32 => Some(("WBEM_E_MARSHAL_VERSION_MISMATCH", WBEM_E_MARSHAL_VERSION_MISMATCH_EN)),
        0x80041041u32 => Some(("WBEM_E_MARSHAL_INVALID_SIGNATURE", WBEM_E_MARSHAL_INVALID_SIGNATURE_EN)),
        0x80041042u32 => Some(("WBEM_E_INVALID_QUALIFIER", WBEM_E_INVALID_QUALIFIER_EN)),
        0x80041043u32 => Some(("WBEM_E_INVALID_DUPLICATE_PARAMETER", WBEM_E_INVALID_DUPLICATE_PARAMETER_EN)),
        0x80041044u32 => Some(("WBEM_E_TOO_MUCH_DATA", WBEM_E_TOO_MUCH_DATA_EN)),
        0x80041045u32 => Some(("WBEM_E_SERVER_TOO_BUSY", WBEM_E_SERVER_TOO_BUSY_EN)),
        0x80041046u32 => Some(("WBEM_E_INVALID_FLAVOR", WBEM_E_INVALID_FLAVOR_EN)),
        0x80041047u32 => Some(("WBEM_E_CIRCULAR_REFERENCE", WBEM_E_CIRCULAR_REFERENCE_EN)),
        0x80041048u32 => Some(("WBEM_E_UNSUPPORTED_CLASS_UPDATE", WBEM_E_UNSUPPORTED_CLASS_UPDATE_EN)),
        0x80041049u32 => Some(("WBEM_E_CANNOT_CHANGE_KEY_INHERITANCE", WBEM_E_CANNOT_CHANGE_KEY_INHERITANCE_EN)),
        0x80041050u32 => Some(("WBEM_E_CANNOT_CHANGE_INDEX_INHERITANCE", WBEM_E_CANNOT_CHANGE_INDEX_INHERITANCE_EN)),
        0x80041051u32 => Some(("WBEM_E_TOO_MANY_PROPERTIES", WBEM_E_TOO_MANY_PROPERTIES_EN)),
        0x80041052u32 => Some(("WBEM_E_UPDATE_TYPE_MISMATCH", WBEM_E_UPDATE_TYPE_MISMATCH_EN)),
        0x80041053u32 => Some(("WBEM_E_UPDATE_OVERRIDE_NOT_ALLOWED", WBEM_E_UPDATE_OVERRIDE_NOT_ALLOWED_EN)),
        0x80041054u32 => Some(("WBEM_E_UPDATE_PROPAGATED_METHOD", WBEM_E_UPDATE_PROPAGATED_METHOD_EN)),
        0x80041055u32 => Some(("WBEM_E_METHOD_NOT_IMPLEMENTED", WBEM_E_METHOD_NOT_IMPLEMENTED_EN)),
        0x80041056u32 => Some(("WBEM_E_METHOD_DISABLED", WBEM_E_METHOD_DISABLED_EN)),
        0x80041057u32 => Some(("WBEM_E_REFRESHER_BUSY", WBEM_E_REFRESHER_BUSY_EN)),
        0x80041058u32 => Some(("WBEM_E_UNPARSABLE_QUERY", WBEM_E_UNPARSABLE_QUERY_EN)),
        0x80041059u32 => Some(("WBEM_E_NOT_EVENT_CLASS", WBEM_E_NOT_EVENT_CLASS_EN)),
        0x8004105Au32 => Some(("WBEM_E_MISSING_GROUP_WITHIN", WBEM_E_MISSING_GROUP_WITHIN_EN)),
        0x8004105Bu32 => Some(("WBEM_E_MISSING_AGGREGATION_LIST", WBEM_E_MISSING_AGGREGATION_LIST_EN)),
        0x8004105Cu32 => Some(("WBEM_E_PROPERTY_NOT_AN_OBJECT", WBEM_E_PROPERTY_NOT_AN_OBJECT_EN)),
        0x8004105Du32 => Some(("WBEM_E_AGGREGATING_BY_OBJECT", WBEM_E_AGGREGATING_BY_OBJECT_EN)),
        0x8004105Fu32 => Some(("WBEM_E_UNINTERPRETABLE_PROVIDER_QUERY", WBEM_E_UNINTERPRETABLE_PROVIDER_QUERY_EN)),
        0x80041060u32 => Some(("WBEM_E_BACKUP_RESTORE_WINMGMT_RUNNING", WBEM_E_BACKUP_RESTORE_WINMGMT_RUNNING_EN)),
        0x80041061u32 => Some(("WBEM_E_QUEUE_OVERFLOW", WBEM_E_QUEUE_OVERFLOW_EN)),
        0x80041062u32 => Some(("WBEM_E_PRIVILEGE_NOT_HELD", WBEM_E_PRIVILEGE_NOT_HELD_EN)),
        0x80041063u32 => Some(("WBEM_E_INVALID_OPERATOR", WBEM_E_INVALID_OPERATOR_EN)),
        0x80041064u32 => Some(("WBEM_E_LOCAL_CREDENTIALS", WBEM_E_LOCAL_CREDENTIALS_EN)),
        0x80041065u32 => Some(("WBEM_E_CANNOT_BE_ABSTRACT", WBEM_E_CANNOT_BE_ABSTRACT_EN)),
        0x80041066u32 => Some(("WBEM_E_AMENDED_OBJECT", WBEM_E_AMENDED_OBJECT_EN)),
        0x80041067u32 => Some(("WBEM_E_CLIENT_TOO_SLOW", WBEM_E_CLIENT_TOO_SLOW_EN)),
        0x80041068u32 => Some(("WBEM_E_NULL_SECURITY_DESCRIPTOR", WBEM_E_NULL_SECURITY_DESCRIPTOR_EN)),
        0x80041069u32 => Some(("WBEM_E_TIMED_OUT", WBEM_E_TIMED_OUT_EN)),
        0x8004106Au32 => Some(("WBEM_E_INVALID_ASSOCIATION", WBEM_E_INVALID_ASSOCIATION_EN)),
        0x8004106Bu32 => Some(("WBEM_E_AMBIGUOUS_OPERATION", WBEM_E_AMBIGUOUS_OPERATION_EN)),
        0x8004106Cu32 => Some(("WBEM_E_QUOTA_VIOLATION", WBEM_E_QUOTA_VIOLATION_EN)),
        0x8004106Du32 => Some(("WBEM_E_TRANSACTION_CONFLICT", WBEM_E_TRANSACTION_CONFLICT_EN)),
        0x8004106Eu32 => Some(("WBEM_E_FORCED_ROLLBACK", WBEM_E_FORCED_ROLLBACK_EN)),
        0x8004106Fu32 => Some(("WBEM_E_UNSUPPORTED_LOCALE", WBEM_E_UNSUPPORTED_LOCALE_EN)),
        0x80041070u32 => Some(("WBEM_E_HANDLE_OUT_OF_DATE", WBEM_E_HANDLE_OUT_OF_DATE_EN)),
        0x80041071u32 => Some(("WBEM_E_CONNECTION_FAILED", WBEM_E_CONNECTION_FAILED_EN)),
        0x80041072u32 => Some(("WBEM_E_INVALID_HANDLE_REQUEST", WBEM_E_INVALID_HANDLE_REQUEST_EN)),
        0x80041073u32 => Some(("WBEM_E_PROPERTY_NAME_TOO_WIDE", WBEM_E_PROPERTY_NAME_TOO_WIDE_EN)),
        0x80041074u32 => Some(("WBEM_E_CLASS_NAME_TOO_WIDE", WBEM_E_CLASS_NAME_TOO_WIDE_EN)),
        0x80041075u32 => Some(("WBEM_E_METHOD_NAME_TOO_WIDE", WBEM_E_METHOD_NAME_TOO_WIDE_EN)),
        0x80041076u32 => Some(("WBEM_E_QUALIFIER_NAME_TOO_WIDE", WBEM_E_QUALIFIER_NAME_TOO_WIDE_EN)),
        0x80041077u32 => Some(("WBEM_E_RERUN_COMMAND", WBEM_E_RERUN_COMMAND_EN)),
        0x80041078u32 => Some(("WBEM_E_DATABASE_VER_MISMATCH", WBEM_E_DATABASE_VER_MISMATCH_EN)),
        0x80041079u32 => Some(("WBEM_E_VETO_DELETE", WBEM_E_VETO_DELETE_EN)),
        0x8004107Au32 => Some(("WBEM_E_VETO_PUT", WBEM_E_VETO_PUT_EN)),
        0x80041080u32 => Some(("WBEM_E_INVALID_LOCALE", WBEM_E_INVALID_LOCALE_EN)),
        0x80041081u32 => Some(("WBEM_E_PROVIDER_SUSPENDED", WBEM_E_PROVIDER_SUSPENDED_EN)),
        0x80041082u32 => Some(("WBEM_E_SYNCHRONIZATION_REQUIRED", WBEM_E_SYNCHRONIZATION_REQUIRED_EN)),
        0x80041083u32 => Some(("WBEM_E_NO_SCHEMA", WBEM_E_NO_SCHEMA_EN)),
        0x80041084u32 => Some(("WBEM_E_PROVIDER_ALREADY_REGISTERED", WBEM_E_PROVIDER_ALREADY_REGISTERED_EN)),
        0x80041085u32 => Some(("WBEM_E_PROVIDER_NOT_REGISTERED", WBEM_E_PROVIDER_NOT_REGISTERED_EN)),
        0x80041086u32 => Some(("WBEM_E_FATAL_TRANSPORT_ERROR", WBEM_E_FATAL_TRANSPORT_ERROR_EN)),
        0x80041087u32 => Some(("WBEM_E_ENCRYPTED_CONNECTION_REQUIRED", WBEM_E_ENCRYPTED_CONNECTION_REQUIRED_EN)),
        0x80041088u32 => Some(("WBEM_E_PROVIDER_TIMED_OUT", WBEM_E_PROVIDER_TIMED_OUT_EN)),
        0x80041089u32 => Some(("WBEM_E_NO_KEY", WBEM_E_NO_KEY_EN)),
        0x8004108Au32 => Some(("WBEM_E_PROVIDER_DISABLED", WBEM_E_PROVIDER_DISABLED_EN)),
        0x80042001u32 => Some(("WBEMESS_E_REGISTRATION_TOO_BROAD", WBEMESS_E_REGISTRATION_TOO_BROAD_EN)),
        0x80042002u32 => Some(("WBEMESS_E_REGISTRATION_TOO_PRECISE", WBEMESS_E_REGISTRATION_TOO_PRECISE_EN)),
        0x80042003u32 => Some(("WBEMESS_E_AUTHZ_NOT_PRIVILEGED", WBEMESS_E_AUTHZ_NOT_PRIVILEGED_EN)),
        0x80044001u32 => Some(("WBEMMOF_E_EXPECTED_QUALIFIER_NAME", WBEMMOF_E_EXPECTED_QUALIFIER_NAME_EN)),
        0x80044002u32 => Some(("WBEMMOF_E_EXPECTED_SEMI", WBEMMOF_E_EXPECTED_SEMI_EN)),
        0x80044003u32 => Some(("WBEMMOF_E_EXPECTED_OPEN_BRACE", WBEMMOF_E_EXPECTED_OPEN_BRACE_EN)),
        0x80044004u32 => Some(("WBEMMOF_E_EXPECTED_CLOSE_BRACE", WBEMMOF_E_EXPECTED_CLOSE_BRACE_EN)),
        0x80044005u32 => Some(("WBEMMOF_E_EXPECTED_CLOSE_BRACKET", WBEMMOF_E_EXPECTED_CLOSE_BRACKET_EN)),
        0x80044006u32 => Some(("WBEMMOF_E_EXPECTED_CLOSE_PAREN", WBEMMOF_E_EXPECTED_CLOSE_PAREN_EN)),
        0x80044007u32 => Some(("WBEMMOF_E_ILLEGAL_CONSTANT_VALUE", WBEMMOF_E_ILLEGAL_CONSTANT_VALUE_EN)),
        0x80044008u32 => Some(("WBEMMOF_E_EXPECTED_TYPE_IDENTIFIER", WBEMMOF_E_EXPECTED_TYPE_IDENTIFIER_EN)),
        0x80044009u32 => Some(("WBEMMOF_E_EXPECTED_OPEN_PAREN", WBEMMOF_E_EXPECTED_OPEN_PAREN_EN)),
        0x8004400Au32 => Some(("WBEMMOF_E_UNRECOGNIZED_TOKEN", WBEMMOF_E_UNRECOGNIZED_TOKEN_EN)),
        0x8004400Bu32 => Some(("WBEMMOF_E_UNRECOGNIZED_TYPE", WBEMMOF_E_UNRECOGNIZED_TYPE_EN)),
        0x8004400Cu32 => Some(("WBEMMOF_E_EXPECTED_PROPERTY_NAME", WBEMMOF_E_EXPECTED_PROPERTY_NAME_EN)),
        0x8004400Du32 => Some(("WBEMMOF_E_TYPEDEF_NOT_SUPPORTED", WBEMMOF_E_TYPEDEF_NOT_SUPPORTED_EN)),
        0x8004400Eu32 => Some(("WBEMMOF_E_UNEXPECTED_ALIAS", WBEMMOF_E_UNEXPECTED_ALIAS_EN)),
        0x8004400Fu32 => Some(("WBEMMOF_E_UNEXPECTED_ARRAY_INIT", WBEMMOF_E_UNEXPECTED_ARRAY_INIT_EN)),
        0x80044010u32 => Some(("WBEMMOF_E_INVALID_AMENDMENT_SYNTAX", WBEMMOF_E_INVALID_AMENDMENT_SYNTAX_EN)),
        0x80044011u32 => Some(("WBEMMOF_E_INVALID_DUPLICATE_AMENDMENT", WBEMMOF_E_INVALID_DUPLICATE_AMENDMENT_EN)),
        0x80044012u32 => Some(("WBEMMOF_E_INVALID_PRAGMA", WBEMMOF_E_INVALID_PRAGMA_EN)),
        0x80044013u32 => Some(("WBEMMOF_E_INVALID_NAMESPACE_SYNTAX", WBEMMOF_E_INVALID_NAMESPACE_SYNTAX_EN)),
        0x80044014u32 => Some(("WBEMMOF_E_EXPECTED_CLASS_NAME", WBEMMOF_E_EXPECTED_CLASS_NAME_EN)),
        0x80044015u32 => Some(("WBEMMOF_E_TYPE_MISMATCH", WBEMMOF_E_TYPE_MISMATCH_EN)),
        0x80044016u32 => Some(("WBEMMOF_E_EXPECTED_ALIAS_NAME", WBEMMOF_E_EXPECTED_ALIAS_NAME_EN)),
        0x80044017u32 => Some(("WBEMMOF_E_INVALID_CLASS_DECLARATION", WBEMMOF_E_INVALID_CLASS_DECLARATION_EN)),
        0x80044018u32 => Some(("WBEMMOF_E_INVALID_INSTANCE_DECLARATION", WBEMMOF_E_INVALID_INSTANCE_DECLARATION_EN)),
        0x80044019u32 => Some(("WBEMMOF_E_EXPECTED_DOLLAR", WBEMMOF_E_EXPECTED_DOLLAR_EN)),
        0x8004401Au32 => Some(("WBEMMOF_E_CIMTYPE_QUALIFIER", WBEMMOF_E_CIMTYPE_QUALIFIER_EN)),
        0x8004401Bu32 => Some(("WBEMMOF_E_DUPLICATE_PROPERTY", WBEMMOF_E_DUPLICATE_PROPERTY_EN)),
        0x8004401Cu32 => Some(("WBEMMOF_E_INVALID_NAMESPACE_SPECIFICATION", WBEMMOF_E_INVALID_NAMESPACE_SPECIFICATION_EN)),
        0x8004401Du32 => Some(("WBEMMOF_E_OUT_OF_RANGE", WBEMMOF_E_OUT_OF_RANGE_EN)),
        0x8004401Eu32 => Some(("WBEMMOF_E_INVALID_FILE", WBEMMOF_E_INVALID_FILE_EN)),
        0x8004401Fu32 => Some(("WBEMMOF_E_ALIASES_IN_EMBEDDED", WBEMMOF_E_ALIASES_IN_EMBEDDED_EN)),
        0x80044020u32 => Some(("WBEMMOF_E_NULL_ARRAY_ELEM", WBEMMOF_E_NULL_ARRAY_ELEM_EN)),
        0x80044021u32 => Some(("WBEMMOF_E_DUPLICATE_QUALIFIER", WBEMMOF_E_DUPLICATE_QUALIFIER_EN)),
        0x80044022u32 => Some(("WBEMMOF_E_EXPECTED_FLAVOR_TYPE", WBEMMOF_E_EXPECTED_FLAVOR_TYPE_EN)),
        0x80044023u32 => Some(("WBEMMOF_E_INCOMPATIBLE_FLAVOR_TYPES", WBEMMOF_E_INCOMPATIBLE_FLAVOR_TYPES_EN)),
        0x80044024u32 => Some(("WBEMMOF_E_MULTIPLE_ALIASES", WBEMMOF_E_MULTIPLE_ALIASES_EN)),
        0x80044025u32 => Some(("WBEMMOF_E_INCOMPATIBLE_FLAVOR_TYPES2", WBEMMOF_E_INCOMPATIBLE_FLAVOR_TYPES2_EN)),
        0x80044026u32 => Some(("WBEMMOF_E_NO_ARRAYS_RETURNED", WBEMMOF_E_NO_ARRAYS_RETURNED_EN)),
        0x80044027u32 => Some(("WBEMMOF_E_MUST_BE_IN_OR_OUT", WBEMMOF_E_MUST_BE_IN_OR_OUT_EN)),
        0x80044028u32 => Some(("WBEMMOF_E_INVALID_FLAGS_SYNTAX", WBEMMOF_E_INVALID_FLAGS_SYNTAX_EN)),
        0x80044029u32 => Some(("WBEMMOF_E_EXPECTED_BRACE_OR_BAD_TYPE", WBEMMOF_E_EXPECTED_BRACE_OR_BAD_TYPE_EN)),
        0x8004402Au32 => Some(("WBEMMOF_E_UNSUPPORTED_CIMV22_QUAL_VALUE", WBEMMOF_E_UNSUPPORTED_CIMV22_QUAL_VALUE_EN)),
        0x8004402Bu32 => Some(("WBEMMOF_E_UNSUPPORTED_CIMV22_DATA_TYPE", WBEMMOF_E_UNSUPPORTED_CIMV22_DATA_TYPE_EN)),
        0x8004402Cu32 => Some(("WBEMMOF_E_INVALID_DELETEINSTANCE_SYNTAX", WBEMMOF_E_INVALID_DELETEINSTANCE_SYNTAX_EN)),
        0x8004402Du32 => Some(("WBEMMOF_E_INVALID_QUALIFIER_SYNTAX", WBEMMOF_E_INVALID_QUALIFIER_SYNTAX_EN)),
        0x8004402Eu32 => Some(("WBEMMOF_E_QUALIFIER_USED_OUTSIDE_SCOPE", WBEMMOF_E_QUALIFIER_USED_OUTSIDE_SCOPE_EN)),
        0x8004402Fu32 => Some(("WBEMMOF_E_ERROR_CREATING_TEMP_FILE", WBEMMOF_E_ERROR_CREATING_TEMP_FILE_EN)),
        0x80044030u32 => Some(("WBEMMOF_E_ERROR_INVALID_INCLUDE_FILE", WBEMMOF_E_ERROR_INVALID_INCLUDE_FILE_EN)),
        0x80044031u32 => Some(("WBEMMOF_E_INVALID_DELETECLASS_SYNTAX", WBEMMOF_E_INVALID_DELETECLASS_SYNTAX_EN)),
        0x80043001u32 => Some(("WBEM_E_RETRY_LATER", WBEM_E_RETRY_LATER_EN)),
        0x80043002u32 => Some(("WBEM_E_RESOURCE_CONTENTION", WBEM_E_RESOURCE_CONTENTION_EN)),
        _ => None,
    }
}

/// The family of a code that is not a WMI status code: WMI's own range,
/// operating-system codes, DCOM codes, ADSI/LDAP codes, or unknown.
pub open spec fn hres_family(code: u32) -> Seq<char> {
    if 0x8004_1068 <= code && code <= 0x8004_1099 {
        "WMI"@
    } else if 0x8007_0000 <= code && code <= 0x8007_9999 {
        "OS"@
    } else if 0x8004_0000 <= code && code <= 0x8004_0999 {
        "DCOM"@
    } else if 0x8005_0000 <= code && code <= 0x8005_9999 {
        "ADSI/LDAP"@
    } else {
        "UNKNOWN"@
    }
}

/// The class of an `HRESULT`: the name of its WMI status constant, or else
/// the family of codes it belongs to.
pub open spec fn hres_class(code: u32) -> Seq<char> {
    match wbem_status(code) {
        Some(e) => e.0,
        None => hres_family(code),
    }
}

/// The English description of an `HRESULT`, or the empty text when it is
/// not a WMI status code.
pub open spec fn hres_detail(code: u32) -> Seq<char> {
    match wbem_status(code) {
        Some(e) => e.1,
        None => Seq::empty(),
    }
}

/// Returns the name of the WMI status constant for `hres`, or else its
/// family: `"WMI"`, `"OS"`, `"DCOM"`, `"ADSI/LDAP"` or `"UNKNOWN"`.
pub fn to_class(hres: i32) -> (r: &'static str)
    ensures
        r@ == hres_class(hres as u32),
{
    let code = hres as u32;
    match wbem_status_entry(code) {
        Some(e) => e.0,
        None => {
            if 0x8004_1068 <= code && code <= 0x8004_1099 {
                "WMI"
            } else if 0x8007_0000 <= code && code <= 0x8007_9999 {
                "OS"
            } else if 0x8004_0000 <= code && code <= 0x8004_0999 {
                "DCOM"
            } else if 0x8005_0000 <= code && code <= 0x8005_9999 {
                "ADSI/LDAP"
            } else {
                "UNKNOWN"
            }
        },
    }
}

/// Returns the English description of the WMI status code `hres`, or the
/// empty string for any other code.
pub fn to_detail(hres: i32) -> (r: &'static str)
    ensures
        r@ == hres_detail(hres as u32),
{
    match wbem_status_entry(hres as u32) {
        Some(e) => e.1,
        None => {
            proof {
                reveal_strlit("");
            }
            ""
        },
    }
}

/// The WMI status codes from 0x80041001 to 0x8004102D: `to_class` gives each code the
/// name of its constant and `to_detail` that constant's description.
pub proof fn lemma_status_codes_1()
    ensures
        hres_class(0x80041001u32) == "WBEM_E_FAILED"@ && hres_detail(0x80041001u32) == WBEM_E_FAILED_EN@,
        hres_class(0x80041002u32) == "WBEM_E_NOT_FOUND"@ && hres_detail(0x80041002u32) == WBEM_E_NOT_FOUND_EN@,
        hres_class(0x80041003u32) == "WBEM_E_ACCESS_DENIED"@ && hres_detail(0x80041003u32) == WBEM_E_ACCESS_DENIED_EN@,
        hres_class(0x80041004u32) == "WBEM_E_PROVIDER_FAILURE"@ && hres_detail(0x80041004u32) == WBEM_E_PROVIDER_FAILURE_EN@,
        hres_class(0x80041005u32) == "WBEM_E_TYPE_MISMATCH"@ && hres_detail(0x80041005u32) == WBEM_E_TYPE_MISMATCH_EN@,
        hres_class(0x80041006u32) == "WBEM_E_OUT_OF_MEMORY"@ && hres_detail(0x80041006u32) == WBEM_E_OUT_OF_MEMORY_EN@,
        hres_class(0x80041007u32) == "WBEM_E_INVALID_CONTEXT"@ && hres_detail(0x80041007u32) == WBEM_E_INVALID_CONTEXT_EN@,
        hres_class(0x80041008u32) == "WBEM_E_INVALID_PARAMETER"@ && hres_detail(0x80041008u32) == WBEM_E_INVALID_PARAMETER_EN@,
        hres_class(0x80041009u32) == "WBEM_E_NOT_AVAILABLE"@ && hres_detail(0x80041009u32) == WBEM_E_NOT_AVAILABLE_EN@,
        hres_class(0x8004100Au32) == "WBEM_E_CRITICAL_ERROR"@ && hres_detail(0x8004100Au32) == WBEM_E_CRITICAL_ERROR_EN@,
        hres_class(0x8004100Bu32) == "WBEM_E_INVALID_STREAM"@ && hres_detail(0x8004100Bu32) == WBEM_E_INVALID_STREAM_EN@,
        hres_class(0x8004100Cu32) == "WBEM_E_NOT_SUPPORTED"@ && hres_detail(0x8004100Cu32) == WBEM_E_NOT_SUPPORTED_EN@,
        hres_class(0x8004100Du32) == "WBEM_E_INVALID_SUPERCLASS"@ && hres_detail(0x8004100Du32) == WBEM_E_INVALID_SUPERCLASS_EN@,
        hres_class(0x8004100Eu32) == "WBEM_E_INVALID_NAMESPACE"@ && hres_detail(0x8004100Eu32) == WBEM_E_INVALID_NAMESPACE_EN@,
        hres_class(0x8004100Fu32) == "WBEM_E_INVALID_OBJECT"@ && hres_detail(0x8004100Fu32) == WBEM_E_INVALID_OBJECT_EN@,
        hres_class(0x80041010u32) == "WBEM_E_INVALID_CLASS"@ && hres_detail(0x80041010u32) == WBEM_E_INVALID_CLASS_EN@,
        hres_class(0x80041011u32) == "WBEM_E_PROVIDER_NOT_FOUND"@ && hres_detail(0x80041011u32) == WBEM_E_PROVIDER_NOT_FOUND_EN@,
        hres_class(0x80041012u32) == "WBEM_E_INVALID_PROVIDER_REGISTRATION"@ && hres_detail(0x80041012u32) == WBEM_E_INVALID_PROVIDER_REGISTRATION_EN@,
        hres_class(0x80041013u32) == "WBEM_E_PROVIDER_LOAD_FAILURE"@ && hres_detail(0x80041013u32) == WBEM_E_PROVIDER_LOAD_FAILURE_EN@,
        hres_class(0x80041014u32) == "WBEM_E_INITIALIZATION_FAILURE"@ && hres_detail(0x80041014u32) == WBEM_E_INITIALIZATION_FAILURE_EN@,
        hres_class(0x80041015u32) == "WBEM_E_TRANSPORT_FAILURE"@ && hres_detail(0x80041015u32) == WBEM_E_TRANSPORT_FAILURE_EN@,
        hres_class(0x80041016u32) == "WBEM_E_INVALID_OPERATION"@ && hres_detail(0x80041016u32) == WBEM_E_INVALID_OPERATION_EN@,
        hres_class(0x80041017u32) == "WBEM_E_INVALID_QUERY"@ && hres_detail(0x80041017u32) == WBEM_E_INVALID_QUERY_EN@,
        hres_class(0x80041018u32) == "WBEM_E_INVALID_QUERY_TYPE"@ && hres_detail(0x80041018u32) == WBEM_E_INVALID_QUERY_TYPE_EN@,
        hres_class(0x80041019u32) == "WBEM_E_ALREADY_EXISTS"@ && hres_detail(0x80041019u32) == WBEM_E_ALREADY_EXISTS_EN@,
        hres_class(0x8004101Au32) == "WBEM_E_OVERRIDE_NOT_ALLOWED"@ && hres_detail(0x8004101Au32) == WBEM_E_OVERRIDE_NOT_ALLOWED_EN@,
        hres_class(0x8004101Bu32) == "WBEM_E_PROPAGATED_QUALIFIER"@ && hres_detail(0x8004101Bu32) == WBEM_E_PROPAGATED_QUALIFIER_EN@,
        hres_class(0x8004101Cu32) == "WBEM_E_PROPAGATED_PROPERTY"@ && hres_detail(0x8004101Cu32) == WBEM_E_PROPAGATED_PROPERTY_EN@,
        hres_class(0x8004101Du32) == "WBEM_E_UNEXPECTED"@ && hres_detail(0x8004101Du32) == WBEM_E_UNEXPECTED_EN@,
        hres_class(0x8004101Eu32) == "WBEM_E_ILLEGAL_OPERATION"@ && hres_detail(0x8004101Eu32) == WBEM_E_ILLEGAL_OPERATION_EN@,
        hres_class(0x8004101Fu32) == "WBEM_E_CANNOT_BE_KEY"@ && hres_detail(0x8004101Fu32) == WBEM_E_CANNOT_BE_KEY_EN@,
        hres_class(0x80041020u32) == "WBEM_E_INCOMPLETE_CLASS"@ && hres_detail(0x80041020u32) == WBEM_E_INCOMPLETE_CLASS_EN@,
        hres_class(0x80041021u32) == "WBEM_E_INVALID_SYNTAX"@ && hres_detail(0x80041021u32) == WBEM_E_INVALID_SYNTAX_EN@,
        hres_class(0x80041022u32) == "WBEM_E_NONDECORATED_OBJECT"@ && hres_detail(0x80041022u32) == WBEM_E_NONDECORATED_OBJECT_EN@,
        hres_class(0x80041023u32) == "WBEM_E_READ_ONLY"@ && hres_detail(0x80041023u32) == WBEM_E_READ_ONLY_EN@,
        hres_class(0x80041024u32) == "WBEM_E_PROVIDER_NOT_CAPABLE"@ && hres_detail(0x80041024u32) == WBEM_E_PROVIDER_NOT_CAPABLE_EN@,
        hres_class(0x80041025u32) == "WBEM_E_CLASS_HAS_CHILDREN"@ && hres_detail(0x80041025u32) == WBEM_E_CLASS_HAS_CHILDREN_EN@,
        hres_class(0x80041026u32) == "WBEM_E_CLASS_HAS_INSTANCES"@ && hres_detail(0x80041026u32) == WBEM_E_CLASS_HAS_INSTANCES_EN@,
        hres_class(0x80041027u32) == "WBEM_E_QUERY_NOT_IMPLEMENTED"@ && hres_detail(0x80041027u32) == WBEM_E_QUERY_NOT_IMPLEMENTED_EN@,
        hres_class(0x80041028u32) == "WBEM_E_ILLEGAL_NULL"@ && hres_detail(0x80041028u32) == WBEM_E_ILLEGAL_NULL_EN@,
        hres_class(0x80041029u32) == "WBEM_E_INVALID_QUALIFIER_TYPE"@ && hres_detail(0x80041029u32) == WBEM_E_INVALID_QUALIFIER_TYPE_EN@,
        hres_class(0x8004102Au32) == "WBEM_E_INVALID_PROPERTY_TYPE"@ && hres_detail(0x8004102Au32) == WBEM_E_INVALID_PROPERTY_TYPE_EN@,
        hres_class(0x8004102Bu32) == "WBEM_E_VALUE_OUT_OF_RANGE"@ && hres_detail(0x8004102Bu32) == WBEM_E_VALUE_OUT_OF_RANGE_EN@,
        hres_class(0x8004102Cu32) == "WBEM_E_CANNOT_BE_SINGLETON"@ && hres_detail(0x8004102Cu32) == WBEM_E_CANNOT_BE_SINGLETON_EN@,
        hres_class(0x8004102Du32) == "WBEM_E_INVALID_CIM_TYPE"@ && hres_detail(0x8004102Du32) == WBEM_E_INVALID_CIM_TYPE_EN@,
{
}

/// The WMI status codes from 0x8004102E to 0x80041061: `to_class` gives each code the
/// name of its constant and `to_detail` that constant's description.
pub proof fn lemma_status_codes_2()
    ensures
        hres_class(0x8004102Eu32) == "WBEM_E_INVALID_METHOD"@ && hres_detail(0x8004102Eu32) == WBEM_E_INVALID_METHOD_EN@,
        hres_class(0x8004102Fu32) == "WBEM_E_INVALID_METHOD_PARAMETERS"@ && hres_detail(0x8004102Fu32) == WBEM_E_INVALID_METHOD_PARAMETERS_EN@,
        hres_class(0x80041030u32) == "WBEM_E_SYSTEM_PROPERTY"@ && hres_detail(0x80041030u32) == WBEM_E_SYSTEM_PROPERTY_EN@,
        hres_class(0x80041031u32) == "WBEM_E_INVALID_PROPERTY"@ && hres_detail(0x80041031u32) == WBEM_E_INVALID_PROPERTY_EN@,
        hres_class(0x80041032u32) == "WBEM_E_CALL_CANCELLED"@ && hres_detail(0x80041032u32) == WBEM_E_CALL_CANCELLED_EN@,
        hres_class(0x80041033u32) == "WBEM_E_SHUTTING_DOWN"@ && hres_detail(0x80041033u32) == WBEM_E_SHUTTING_DOWN_EN@,
        hres_class(0x80041034u32) == "WBEM_E_PROPAGATED_METHOD"@ && hres_detail(0x80041034u32) == WBEM_E_PROPAGATED_METHOD_EN@,
        hres_class(0x80041035u32) == "WBEM_E_UNSUPPORTED_PARAMETER"@ && hres_detail(0x80041035u32) == WBEM_E_UNSUPPORTED_PARAMETER_EN@,
        hres_class(0x80041036u32) == "WBEM_E_MISSING_PARAMETER_ID"@ && hres_detail(0x80041036u32) == WBEM_E_MISSING_PARAMETER_ID_EN@,
        hres_class(0x80041037u32) == "WBEM_E_INVALID_PARAMETER_ID"@ && hres_detail(0x80041037u32) == WBEM_E_INVALID_PARAMETER_ID_EN@,
        hres_class(0x80041038u32) == "WBEM_E_NONCONSECUTIVE_PARAMETER_IDS"@ && hres_detail(0x80041038u32) == WBEM_E_NONCONSECUTIVE_PARAMETER_IDS_EN@,
        hres_class(0x80041039u32) == "WBEM_E_PARAMETER_ID_ON_RETVAL"@ && hres_detail(0x80041039u32) == WBEM_E_PARAMETER_ID_ON_RETVAL_EN@,
        hres_class(0x8004103Au32) == "WBEM_E_INVALID_OBJECT_PATH"@ && hres_detail(0x8004103Au32) == WBEM_E_INVALID_OBJECT_PATH_EN@,
        hres_class(0x8004103Bu32) == "WBEM_E_OUT_OF_DISK_SPACE"@ && hres_detail(0x8004103Bu32) == WBEM_E_OUT_OF_DISK_SPACE_EN@,
        hres_class(0x8004103Cu32) == "WBEM_E_BUFFER_TOO_SMALL"@ && hres_detail(0x8004103Cu32) == WBEM_E_BUFFER_TOO_SMALL_EN@,
        hres_class(0x8004103Du32) == "WBEM_E_UNSUPPORTED_PUT_EXTENSION"@ && hres_detail(0x8004103Du32) == WBEM_E_UNSUPPORTED_PUT_EXTENSION_EN@,
        hres_class(0x8004103Eu32) == "WBEM_E_UNKNOWN_OBJECT_TYPE"@ && hres_detail(0x8004103Eu32) == WBEM_E_UNKNOWN_OBJECT_TYPE_EN@,
        hres_class(0x8004103Fu32) == "WBEM_E_UNKNOWN_PACKET_TYPE"@ && hres_detail(0x8004103Fu32) == WBEM_E_UNKNOWN_PACKET_TYPE_EN@,
        hres_class(0x80041040u32) == "WBEM_E_MARSHAL_VERSION_MISMATCH"@ && hres_detail(0x80041040u32) == WBEM_E_MARSHAL_VERSION_MISMATCH_EN@,
        hres_class(0x80041041u32) == "WBEM_E_MARSHAL_INVALID_SIGNATURE"@ && hres_detail(0x80041041u32) == WBEM_E_MARSHAL_INVALID_SIGNATURE_EN@,
        hres_class(0x80041042u32) == "WBEM_E_INVALID_QUALIFIER"@ && hres_detail(0x80041042u32) == WBEM_E_INVALID_QUALIFIER_EN@,
        hres_class(0x80041043u32) == "WBEM_E_INVALID_DUPLICATE_PARAMETER"@ && hres_detail(0x80041043u32) == WBEM_E_INVALID_DUPLICATE_PARAMETER_EN@,
        hres_class(0x80041044u32) == "WBEM_E_TOO_MUCH_DATA"@ && hres_detail(0x80041044u32) == WBEM_E_TOO_MUCH_DATA_EN@,
        hres_class(0x80041045u32) == "WBEM_E_SERVER_TOO_BUSY"@ && hres_detail(0x80041045u32) == WBEM_E_SERVER_TOO_BUSY_EN@,
        hres_class(0x80041046u32) == "WBEM_E_INVALID_FLAVOR"@ && hres_detail(0x80041046u32) == WBEM_E_INVALID_FLAVOR_EN@,
        hres_class(0x80041047u32) == "WBEM_E_CIRCULAR_REFERENCE"@ && hres_detail(0x80041047u32) == WBEM_E_CIRCULAR_REFERENCE_EN@,
        hres_class(0x80041048u32) == "WBEM_E_UNSUPPORTED_CLASS_UPDATE"@ && hres_detail(0x80041048u32) == WBEM_E_UNSUPPORTED_CLASS_UPDATE_EN@,
        hres_class(0x80041049u32) == "WBEM_E_CANNOT_CHANGE_KEY_INHERITANCE"@ && hres_detail(0x80041049u32) == WBEM_E_CANNOT_CHANGE_KEY_INHERITANCE_EN@,
        hres_class(0x80041050u32) == "WBEM_E_CANNOT_CHANGE_INDEX_INHERITANCE"@ && hres_detail(0x80041050u32) == WBEM_E_CANNOT_CHANGE_INDEX_INHERITANCE_EN@,
        hres_class(0x80041051u32) == "WBEM_E_TOO_MANY_PROPERTIES"@ && hres_detail(0x80041051u32) == WBEM_E_TOO_MANY_PROPERTIES_EN@,
        hres_class(0x80041052u32) == "WBEM_E_UPDATE_TYPE_MISMATCH"@ && hres_detail(0x80041052u32) == WBEM_E_UPDATE_TYPE_MISMATCH_EN@,
        hres_class(0x80041053u32) == "WBEM_E_UPDATE_OVERRIDE_NOT_ALLOWED"@ && hres_detail(0x80041053u32) == WBEM_E_UPDATE_OVERRIDE_NOT_ALLOWED_EN@,
        hres_class(0x80041054u32) == "WBEM_E_UPDATE_PROPAGATED_METHOD"@ && hres_detail(0x80041054u32) == WBEM_E_UPDATE_PROPAGATED_METHOD_EN@,
        hres_class(0x80041055u32) == "WBEM_E_METHOD_NOT_IMPLEMENTED"@ && hres_detail(0x80041055u32) == WBEM_E_METHOD_NOT_IMPLEMENTED_EN@,
        hres_class(0x80041056u32) == "WBEM_E_METHOD_DISABLED"@ && hres_detail(0x80041056u32) == WBEM_E_METHOD_DISABLED_EN@,
        hres_class(0x80041057u32) == "WBEM_E_REFRESHER_BUSY"@ && hres_detail(0x80041057u32) == WBEM_E_REFRESHER_BUSY_EN@,
        hres_class(0x80041058u32) == "WBEM_E_UNPARSABLE_QUERY"@ && hres_detail(0x80041058u32) == WBEM_E_UNPARSABLE_QUERY_EN@,
        hres_class(0x80041059u32) == "WBEM_E_NOT_EVENT_CLASS"@ && hres_detail(0x80041059u32) == WBEM_E_NOT_EVENT_CLASS_EN@,
        hres_class(0x8004105Au32) == "WBEM_E_MISSING_GROUP_WITHIN"@ && hres_detail(0x8004105Au32) == WBEM_E_MISSING_GROUP_WITHIN_EN@,
        hres_class(0x8004105Bu32) == "WBEM_E_MISSING_AGGREGATION_LIST"@ && hres_detail(0x8004105Bu32) == WBEM_E_MISSING_AGGREGATION_LIST_EN@,
        hres_class(0x8004105Cu32) == "WBEM_E_PROPERTY_NOT_AN_OBJECT"@ && hres_detail(0x8004105Cu32) == WBEM_E_PROPERTY_NOT_AN_OBJECT_EN@,
        hres_class(0x8004105Du32) == "WBEM_E_AGGREGATING_BY_OBJECT"@ && hres_detail(0x8004105Du32) == WBEM_E_AGGREGATING_BY_OBJECT_EN@,
        hres_class(0x8004105Fu32) == "WBEM_E_UNINTERPRETABLE_PROVIDER_QUERY"@ && hres_detail(0x8004105Fu32) == WBEM_E_UNINTERPRETABLE_PROVIDER_QUERY_EN@,
        hres_class(0x80041060u32) == "WBEM_E_BACKUP_RESTORE_WINMGMT_RUNNING"@ && hres_detail(0x80041060u32) == WBEM_E_BACKUP_RESTORE_WINMGMT_RUNNING_EN@,
        hres_class(0x80041061u32) == "WBEM_E_QUEUE_OVERFLOW"@ && hres_detail(0x80041061u32) == WBEM_E_QUEUE_OVERFLOW_EN@,
{
}

/// The WMI status codes from 0x80041062 to 0x80044006: `to_class` gives each code the
/// name of its constant and `to_detail` that constant's description.
pub proof fn lemma_status_codes_3()
    ensures
        hres_class(0x80041062u32) == "WBEM_E_PRIVILEGE_NOT_HELD"@ && hres_detail(0x80041062u32) == WBEM_E_PRIVILEGE_NOT_HELD_EN@,
        hres_class(0x80041063u32) == "WBEM_E_INVALID_OPERATOR"@ && hres_detail(0x80041063u32) == WBEM_E_INVALID_OPERATOR_EN@,
        hres_class(0x80041064u32) == "WBEM_E_LOCAL_CREDENTIALS"@ && hres_detail(0x80041064u32) == WBEM_E_LOCAL_CREDENTIALS_EN@,
        hres_class(0x80041065u32) == "WBEM_E_CANNOT_BE_ABSTRACT"@ && hres_detail(0x80041065u32) == WBEM_E_CANNOT_BE_ABSTRACT_EN@,
        hres_class(0x80041066u32) == "WBEM_E_AMENDED_OBJECT"@ && hres_detail(0x80041066u32) == WBEM_E_AMENDED_OBJECT_EN@,
        hres_class(0x80041067u32) == "WBEM_E_CLIENT_TOO_SLOW"@ && hres_detail(0x80041067u32) == WBEM_E_CLIENT_TOO_SLOW_EN@,
        hres_class(0x80041068u32) == "WBEM_E_NULL_SECURITY_DESCRIPTOR"@ && hres_detail(0x80041068u32) == WBEM_E_NULL_SECURITY_DESCRIPTOR_EN@,
        hres_class(0x80041069u32) == "WBEM_E_TIMED_OUT"@ && hres_detail(0x80041069u32) == WBEM_E_TIMED_OUT_EN@,
        hres_class(0x8004106Au32) == "WBEM_E_INVALID_ASSOCIATION"@ && hres_detail(0x8004106Au32) == WBEM_E_INVALID_ASSOCIATION_EN@,
        hres_class(0x8004106Bu32) == "WBEM_E_AMBIGUOUS_OPERATION"@ && hres_detail(0x8004106Bu32) == WBEM_E_AMBIGUOUS_OPERATION_EN@,
        hres_class(0x8004106Cu32) == "WBEM_E_QUOTA_VIOLATION"@ && hres_detail(0x8004106Cu32) == WBEM_E_QUOTA_VIOLATION_EN@,
        hres_class(0x8004106Du32) == "WBEM_E_TRANSACTION_CONFLICT"@ && hres_detail(0x8004106Du32) == WBEM_E_TRANSACTION_CONFLICT_EN@,
        hres_class(0x8004106Eu32) == "WBEM_E_FORCED_ROLLBACK"@ && hres_detail(0x8004106Eu32) == WBEM_E_FORCED_ROLLBACK_EN@,
        hres_class(0x8004106Fu32) == "WBEM_E_UNSUPPORTED_LOCALE"@ && hres_detail(0x8004106Fu32) == WBEM_E_UNSUPPORTED_LOCALE_EN@,
        hres_class(0x80041070u32) == "WBEM_E_HANDLE_OUT_OF_DATE"@ && hres_detail(0x80041070u32) == WBEM_E_HANDLE_OUT_OF_DATE_EN@,
        hres_class(0x80041071u32) == "WBEM_E_CONNECTION_FAILED"@ && hres_detail(0x80041071u32) == WBEM_E_CONNECTION_FAILED_EN@,
        hres_class(0x80041072u32) == "WBEM_E_INVALID_HANDLE_REQUEST"@ && hres_detail(0x80041072u32) == WBEM_E_INVALID_HANDLE_REQUEST_EN@,
        hres_class(0x80041073u32) == "WBEM_E_PROPERTY_NAME_TOO_WIDE"@ && hres_detail(0x80041073u32) == WBEM_E_PROPERTY_NAME_TOO_WIDE_EN@,
        hres_class(0x80041074u32) == "WBEM_E_CLASS_NAME_TOO_WIDE"@ && hres_detail(0x80041074u32) == WBEM_E_CLASS_NAME_TOO_WIDE_EN@,
        hres_class(0x80041075u32) == "WBEM_E_METHOD_NAME_TOO_WIDE"@ && hres_detail(0x80041075u32) == WBEM_E_METHOD_NAME_TOO_WIDE_EN@,
        hres_class(0x80041076u32) == "WBEM_E_QUALIFIER_NAME_TOO_WIDE"@ && hres_detail(0x80041076u32) == WBEM_E_QUALIFIER_NAME_TOO_WIDE_EN@,
        hres_class(0x80041077u32) == "WBEM_E_RERUN_COMMAND"@ && hres_detail(0x80041077u32) == WBEM_E_RERUN_COMMAND_EN@,
        hres_class(0x80041078u32) == "WBEM_E_DATABASE_VER_MISMATCH"@ && hres_detail(0x80041078u32) == WBEM_E_DATABASE_VER_MISMATCH_EN@,
        hres_class(0x80041079u32) == "WBEM_E_VETO_DELETE"@ && hres_detail(0x80041079u32) == WBEM_E_VETO_DELETE_EN@,
        hres_class(0x8004107Au32) == "WBEM_E_VETO_PUT"@ && hres_detail(0x8004107Au32) == WBEM_E_VETO_PUT_EN@,
        hres_class(0x80041080u32) == "WBEM_E_INVALID_LOCALE"@ && hres_detail(0x80041080u32) == WBEM_E_INVALID_LOCALE_EN@,
        hres_class(0x80041081u32) == "WBEM_E_PROVIDER_SUSPENDED"@ && hres_detail(0x80041081u32) == WBEM_E_PROVIDER_SUSPENDED_EN@,
        hres_class(0x80041082u32) == "WBEM_E_SYNCHRONIZATION_REQUIRED"@ && hres_detail(0x80041082u32) == WBEM_E_SYNCHRONIZATION_REQUIRED_EN@,
        hres_class(0x80041083u32) == "WBEM_E_NO_SCHEMA"@ && hres_detail(0x80041083u32) == WBEM_E_NO_SCHEMA_EN@,
        hres_class(0x80041084u32) == "WBEM_E_PROVIDER_ALREADY_REGISTERED"@ && hres_detail(0x80041084u32) == WBEM_E_PROVIDER_ALREADY_REGISTERED_EN@,
        hres_class(0x80041085u32) == "WBEM_E_PROVIDER_NOT_REGISTERED"@ && hres_detail(0x80041085u32) == WBEM_E_PROVIDER_NOT_REGISTERED_EN@,
        hres_class(0x80041086u32) == "WBEM_E_FATAL_TRANSPORT_ERROR"@ && hres_detail(0x80041086u32) == WBEM_E_FATAL_TRANSPORT_ERROR_EN@,
        hres_class(0x80041087u32) == "WBEM_E_ENCRYPTED_CONNECTION_REQUIRED"@ && hres_detail(0x80041087u32) == WBEM_E_ENCRYPTED_CONNECTION_REQUIRED_EN@,
        hres_class(0x80041088u32) == "WBEM_E_PROVIDER_TIMED_OUT"@ && hres_detail(0x80041088u32) == WBEM_E_PROVIDER_TIMED_OUT_EN@,
        hres_class(0x80041089u32) == "WBEM_E_NO_KEY"@ && hres_detail(0x80041089u32) == WBEM_E_NO_KEY_EN@,
        hres_class(0x8004108Au32) == "WBEM_E_PROVIDER_DISABLED"@ && hres_detail(0x8004108Au32) == WBEM_E_PROVIDER_DISABLED_EN@,
        hres_class(0x80042001u32) == "WBEMESS_E_REGISTRATION_TOO_BROAD"@ && hres_detail(0x80042001u32) == WBEMESS_E_REGISTRATION_TOO_BROAD_EN@,
        hres_class(0x80042002u32) == "WBEMESS_E_REGISTRATION_TOO_PRECISE"@ && hres_detail(0x80042002u32) == WBEMESS_E_REGISTRATION_TOO_PRECISE_EN@,
        hres_class(0x80042003u32) == "WBEMESS_E_AUTHZ_NOT_PRIVILEGED"@ && hres_detail(0x80042003u32) == WBEMESS_E_AUTHZ_NOT_PRIVILEGED_EN@,
        hres_class(0x80044001u32) == "WBEMMOF_E_EXPECTED_QUALIFIER_NAME"@ && hres_detail(0x80044001u32) == WBEMMOF_E_EXPECTED_QUALIFIER_NAME_EN@,
        hres_class(0x80044002u32) == "WBEMMOF_E_EXPECTED_SEMI"@ && hres_detail(0x80044002u32) == WBEMMOF_E_EXPECTED_SEMI_EN@,
        hres_class(0x80044003u32) == "WBEMMOF_E_EXPECTED_OPEN_BRACE"@ && hres_detail(0x80044003u32) == WBEMMOF_E_EXPECTED_OPEN_BRACE_EN@,
        hres_class(0x80044004u32) == "WBEMMOF_E_EXPECTED_CLOSE_BRACE"@ && hres_detail(0x80044004u32) == WBEMMOF_E_EXPECTED_CLOSE_BRACE_EN@,
        hres_class(0x80044005u32) == "WBEMMOF_E_EXPECTED_CLOSE_BRACKET"@ && hres_detail(0x80044005u32) == WBEMMOF_E_EXPECTED_CLOSE_BRACKET_EN@,
        hres_class(0x80044006u32) == "WBEMMOF_E_EXPECTED_CLOSE_PAREN"@ && hres_detail(0x80044006u32) == WBEMMOF_E_EXPECTED_CLOSE_PAREN_EN@,
{
}

/// The WMI status codes from 0x80044007 to 0x80043002: `to_class` gives each code the
/// name of its constant and `to_detail` that constant's description.
pub proof fn lemma_status_codes_4()
    ensures
        hres_class(0x80044007u32) == "WBEMMOF_E_ILLEGAL_CONSTANT_VALUE"@ && hres_detail(0x80044007u32) == WBEMMOF_E_ILLEGAL_CONSTANT_VALUE_EN@,
        hres_class(0x80044008u32) == "WBEMMOF_E_EXPECTED_TYPE_IDENTIFIER"@ && hres_detail(0x80044008u32) == WBEMMOF_E_EXPECTED_TYPE_IDENTIFIER_EN@,
        hres_class(0x80044009u32) == "WBEMMOF_E_EXPECTED_OPEN_PAREN"@ && hres_detail(0x80044009u32) == WBEMMOF_E_EXPECTED_OPEN_PAREN_EN@,
        hres_class(0x8004400Au32) == "WBEMMOF_E_UNRECOGNIZED_TOKEN"@ && hres_detail(0x8004400Au32) == WBEMMOF_E_UNRECOGNIZED_TOKEN_EN@,
        hres_class(0x8004400Bu32) == "WBEMMOF_E_UNRECOGNIZED_TYPE"@ && hres_detail(0x8004400Bu32) == WBEMMOF_E_UNRECOGNIZED_TYPE_EN@,
        hres_class(0x8004400Cu32) == "WBEMMOF_E_EXPECTED_PROPERTY_NAME"@ && hres_detail(0x8004400Cu32) == WBEMMOF_E_EXPECTED_PROPERTY_NAME_EN@,
        hres_class(0x8004400Du32) == "WBEMMOF_E_TYPEDEF_NOT_SUPPORTED"@ && hres_detail(0x8004400Du32) == WBEMMOF_E_TYPEDEF_NOT_SUPPORTED_EN@,
        hres_class(0x8004400Eu32) == "WBEMMOF_E_UNEXPECTED_ALIAS"@ && hres_detail(0x8004400Eu32) == WBEMMOF_E_UNEXPECTED_ALIAS_EN@,
        hres_class(0x8004400Fu32) == "WBEMMOF_E_UNEXPECTED_ARRAY_INIT"@ && hres_detail(0x8004400Fu32) == WBEMMOF_E_UNEXPECTED_ARRAY_INIT_EN@,
        hres_class(0x80044010u32) == "WBEMMOF_E_INVALID_AMENDMENT_SYNTAX"@ && hres_detail(0x80044010u32) == WBEMMOF_E_INVALID_AMENDMENT_SYNTAX_EN@,
        hres_class(0x80044011u32) == "WBEMMOF_E_INVALID_DUPLICATE_AMENDMENT"@ && hres_detail(0x80044011u32) == WBEMMOF_E_INVALID_DUPLICATE_AMENDMENT_EN@,
        hres_class(0x80044012u32) == "WBEMMOF_E_INVALID_PRAGMA"@ && hres_detail(0x80044012u32) == WBEMMOF_E_INVALID_PRAGMA_EN@,
        hres_class(0x80044013u32) == "WBEMMOF_E_INVALID_NAMESPACE_SYNTAX"@ && hres_detail(0x80044013u32) == WBEMMOF_E_INVALID_NAMESPACE_SYNTAX_EN@,
        hres_class(0x80044014u32) == "WBEMMOF_E_EXPECTED_CLASS_NAME"@ && hres_detail(0x80044014u32) == WBEMMOF_E_EXPECTED_CLASS_NAME_EN@,
        hres_class(0x80044015u32) == "WBEMMOF_E_TYPE_MISMATCH"@ && hres_detail(0x80044015u32) == WBEMMOF_E_TYPE_MISMATCH_EN@,
        hres_class(0x80044016u32) == "WBEMMOF_E_EXPECTED_ALIAS_NAME"@ && hres_detail(0x80044016u32) == WBEMMOF_E_EXPECTED_ALIAS_NAME_EN@,
        hres_class(0x80044017u32) == "WBEMMOF_E_INVALID_CLASS_DECLARATION"@ && hres_detail(0x80044017u32) == WBEMMOF_E_INVALID_CLASS_DECLARATION_EN@,
        hres_class(0x80044018u32) == "WBEMMOF_E_INVALID_INSTANCE_DECLARATION"@ && hres_detail(0x80044018u32) == WBEMMOF_E_INVALID_INSTANCE_DECLARATION_EN@,
        hres_class(0x80044019u32) == "WBEMMOF_E_EXPECTED_DOLLAR"@ && hres_detail(0x80044019u32) == WBEMMOF_E_EXPECTED_DOLLAR_EN@,
        hres_class(0x8004401Au32) == "WBEMMOF_E_CIMTYPE_QUALIFIER"@ && hres_detail(0x8004401Au32) == WBEMMOF_E_CIMTYPE_QUALIFIER_EN@,
        hres_class(0x8004401Bu32) == "WBEMMOF_E_DUPLICATE_PROPERTY"@ && hres_detail(0x8004401Bu32) == WBEMMOF_E_DUPLICATE_PROPERTY_EN@,
        hres_class(0x8004401Cu32) == "WBEMMOF_E_INVALID_NAMESPACE_SPECIFICATION"@ && hres_detail(0x8004401Cu32) == WBEMMOF_E_INVALID_NAMESPACE_SPECIFICATION_EN@,
        hres_class(0x8004401Du32) == "WBEMMOF_E_OUT_OF_RANGE"@ && hres_detail(0x8004401Du32) == WBEMMOF_E_OUT_OF_RANGE_EN@,
        hres_class(0x8004401Eu32) == "WBEMMOF_E_INVALID_FILE"@ && hres_detail(0x8004401Eu32) == WBEMMOF_E_INVALID_FILE_EN@,
        hres_class(0x8004401Fu32) == "WBEMMOF_E_ALIASES_IN_EMBEDDED"@ && hres_detail(0x8004401Fu32) == WBEMMOF_E_ALIASES_IN_EMBEDDED_EN@,
        hres_class(0x80044020u32) == "WBEMMOF_E_NULL_ARRAY_ELEM"@ && hres_detail(0x80044020u32) == WBEMMOF_E_NULL_ARRAY_ELEM_EN@,
        hres_class(0x80044021u32) == "WBEMMOF_E_DUPLICATE_QUALIFIER"@ && hres_detail(0x80044021u32) == WBEMMOF_E_DUPLICATE_QUALIFIER_EN@,
        hres_class(0x80044022u32) == "WBEMMOF_E_EXPECTED_FLAVOR_TYPE"@ && hres_detail(0x80044022u32) == WBEMMOF_E_EXPECTED_FLAVOR_TYPE_EN@,
        hres_class(0x80044023u32) == "WBEMMOF_E_INCOMPATIBLE_FLAVOR_TYPES"@ && hres_detail(0x80044023u32) == WBEMMOF_E_INCOMPATIBLE_FLAVOR_TYPES_EN@,
        hres_class(0x80044024u32) == "WBEMMOF_E_MULTIPLE_ALIASES"@ && hres_detail(0x80044024u32) == WBEMMOF_E_MULTIPLE_ALIASES_EN@,
        hres_class(0x80044025u32) == "WBEMMOF_E_INCOMPATIBLE_FLAVOR_TYPES2"@ && hres_detail(0x80044025u32) == WBEMMOF_E_INCOMPATIBLE_FLAVOR_TYPES2_EN@,
        hres_class(0x80044026u32) == "WBEMMOF_E_NO_ARRAYS_RETURNED"@ && hres_detail(0x80044026u32) == WBEMMOF_E_NO_ARRAYS_RETURNED_EN@,
        hres_class(0x80044027u32) == "WBEMMOF_E_MUST_BE_IN_OR_OUT"@ && hres_detail(0x80044027u32) == WBEMMOF_E_MUST_BE_IN_OR_OUT_EN@,
        hres_class(0x80044028u32) == "WBEMMOF_E_INVALID_FLAGS_SYNTAX"@ && hres_detail(0x80044028u32) == WBEMMOF_E_INVALID_FLAGS_SYNTAX_EN@,
        hres_class(0x80044029u32) == "WBEMMOF_E_EXPECTED_BRACE_OR_BAD_TYPE"@ && hres_detail(0x80044029u32) == WBEMMOF_E_EXPECTED_BRACE_OR_BAD_TYPE_EN@,
        hres_class(0x8004402Au32) == "WBEMMOF_E_UNSUPPORTED_CIMV22_QUAL_VALUE"@ && hres_detail(0x8004402Au32) == WBEMMOF_E_UNSUPPORTED_CIMV22_QUAL_VALUE_EN@,
        hres_class(0x8004402Bu32) == "WBEMMOF_E_UNSUPPORTED_CIMV22_DATA_TYPE"@ && hres_detail(0x8004402Bu32) == WBEMMOF_E_UNSUPPORTED_CIMV22_DATA_TYPE_EN@,
        hres_class(0x8004402Cu32) == "WBEMMOF_E_INVALID_DELETEINSTANCE_SYNTAX"@ && hres_detail(0x8004402Cu32) == WBEMMOF_E_INVALID_DELETEINSTANCE_SYNTAX_EN@,
        hres_class(0x8004402Du32) == "WBEMMOF_E_INVALID_QUALIFIER_SYNTAX"@ && hres_detail(0x8004402Du32) == WBEMMOF_E_INVALID_QUALIFIER_SYNTAX_EN@,
        hres_class(0x8004402Eu32) == "WBEMMOF_E_QUALIFIER_USED_OUTSIDE_SCOPE"@ && hres_detail(0x8004402Eu32) == WBEMMOF_E_QUALIFIER_USED_OUTSIDE_SCOPE_EN@,
        hres_class(0x8004402Fu32) == "WBEMMOF_E_ERROR_CREATING_TEMP_FILE"@ && hres_detail(0x8004402Fu32) == WBEMMOF_E_ERROR_CREATING_TEMP_FILE_EN@,
        hres_class(0x80044030u32) == "WBEMMOF_E_ERROR_INVALID_INCLUDE_FILE"@ && hres_detail(0x80044030u32) == WBEMMOF_E_ERROR_INVALID_INCLUDE_FILE_EN@,
        hres_class(0x80044031u32) == "WBEMMOF_E_INVALID_DELETECLASS_SYNTAX"@ && hres_detail(0x80044031u32) == WBEMMOF_E_INVALID_DELETECLASS_SYNTAX_EN@,
        hres_class(0x80043001u32) == "WBEM_E_RETRY_LATER"@ && hres_detail(0x80043001u32) == WBEM_E_RETRY_LATER_EN@,
        hres_class(0x80043002u32) == "WBEM_E_RESOURCE_CONTENTION"@ && hres_detail(0x80043002u32) == WBEM_E_RESOURCE_CONTENTION_EN@,
{
}

/// Whether a text is one of the family names that [`to_class`] gives for a
/// code that is not a WMI status code.
pub open spec fn is_family_name(s: Seq<char>) -> bool {
    s == "WMI"@ || s == "OS"@ || s == "DCOM"@ || s == "ADSI/LDAP"@ || s == "UNKNOWN"@
}

/// Each WMI status code has a description that is not empty, and a name
/// that is not a family name.
#[verifier::rlimit(50)]
proof fn lemma_status_entry(code: u32)
    ensures
        wbem_status(code) matches Some(e) ==> e.1.len() > 0 && !is_family_name(e.0),
{
    reveal_strlit("WMI");
    reveal_strlit("OS");
    reveal_strlit("DCOM");
    reveal_strlit("ADSI/LDAP");
    reveal_strlit("UNKNOWN");
    assert("WMI"@.len() == 3 && "OS"@.len() == 2 && "DCOM"@.len() == 4);
    assert("ADSI/LDAP"@.len() == 9 && "UNKNOWN"@.len() == 7);
    match code {
        0x80041001u32 => {
            reveal_strlit("WBEM_E_FAILED");
            reveal_strlit("Call failed.");
            assert(WBEM_E_FAILED_EN@ == "Call failed."@);
            assert("WBEM_E_FAILED"@.len() == 13);
            assert(!is_family_name("WBEM_E_FAILED"@));
        },
        0x80041002u32 => {
            reveal_strlit("WBEM_E_NOT_FOUND");
            reveal_strlit("Object cannot be found.");
            assert(WBEM_E_NOT_FOUND_EN@ == "Object cannot be found."@);
            assert("WBEM_E_NOT_FOUND"@.len() == 16);
            assert(!is_family_name("WBEM_E_NOT_FOUND"@));
        },
        0x80041003u32 => {
            reveal_strlit("WBEM_E_ACCESS_DENIED");
            reveal_strlit("Current user does not have permission to perform the action.");
            assert(WBEM_E_ACCESS_DENIED_EN@ == "Current user does not have permission to perform the action."@);
            assert("WBEM_E_ACCESS_DENIED"@.len() == 20);
            assert(!is_family_name("WBEM_E_ACCESS_DENIED"@));
        },
        0x80041004u32 => {
            reveal_strlit("WBEM_E_PROVIDER_FAILURE");
            reveal_strlit("Provider has failed at some time other than during initialization.");
            assert(WBEM_E_PROVIDER_FAILURE_EN@ == "Provider has failed at some time other than during initialization."@);
            assert("WBEM_E_PROVIDER_FAILURE"@.len() == 23);
            assert(!is_family_name("WBEM_E_PROVIDER_FAILURE"@));
        },
        0x80041005u32 => {
            reveal_strlit("WBEM_E_TYPE_MISMATCH");
            reveal_strlit("Type mismatch occurred.");
            assert(WBEM_E_TYPE_MISMATCH_EN@ == "Type mismatch occurred."@);
            assert("WBEM_E_TYPE_MISMATCH"@.len() == 20);
            assert(!is_family_name("WBEM_E_TYPE_MISMATCH"@));
        },
        0x80041006u32 => {
            reveal_strlit("WBEM_E_OUT_OF_MEMORY");
            reveal_strlit("Not enough memory for the operation.");
            assert(WBEM_E_OUT_OF_MEMORY_EN@ == "Not enough memory for the operation."@);
            assert("WBEM_E_OUT_OF_MEMORY"@.len() == 20);
            assert(!is_family_name("WBEM_E_OUT_OF_MEMORY"@));
        },
        0x80041007u32 => {
            reveal_strlit("WBEM_E_INVALID_CONTEXT");
            reveal_strlit("The IWbemContext object is not valid.");
            assert(WBEM_E_INVALID_CONTEXT_EN@ == "The IWbemContext object is not valid."@);
            assert("WBEM_E_INVALID_CONTEXT"@.len() == 22);
            assert(!is_family_name("WBEM_E_INVALID_CONTEXT"@));
        },
        0x80041008u32 => {
            reveal_strlit("WBEM_E_INVALID_PARAMETER");
            reveal_strlit("One of the parameters to the call is not correct.");
            assert(WBEM_E_INVALID_PARAMETER_EN@ == "One of the parameters to the call is not correct."@);
            assert("WBEM_E_INVALID_PARAMETER"@.len() == 24);
            assert(!is_family_name("WBEM_E_INVALID_PARAMETER"@));
        },
        0x80041009u32 => {
            reveal_strlit("WBEM_E_NOT_AVAILABLE");
            reveal_strlit("Resource, typically a remote server, is not currently available.");
            assert(WBEM_E_NOT_AVAILABLE_EN@ == "Resource, typically a remote server, is not currently available."@);
            assert("WBEM_E_NOT_AVAILABLE"@.len() == 20);
            assert(!is_family_name("WBEM_E_NOT_AVAILABLE"@));
        },
        0x8004100Au32 => {
            reveal_strlit("WBEM_E_CRITICAL_ERROR");
            reveal_strlit("Internal, critical, and unexpected error occurred. Report the error to Microsoft Technical \
    Support.");
            assert(WBEM_E_CRITICAL_ERROR_EN@ == "Internal, critical, and unexpected error occurred. Report the error to Microsoft Technical \
    Support."@);
            assert("WBEM_E_CRITICAL_ERROR"@.len() == 21);
            assert(!is_family_name("WBEM_E_CRITICAL_ERROR"@));
        },
        0x8004100Bu32 => {
            reveal_strlit("WBEM_E_INVALID_STREAM");
            reveal_strlit("One or more network packets were corrupted during a remote session.");
            assert(WBEM_E_INVALID_STREAM_EN@ == "One or more network packets were corrupted during a remote session."@);
            assert("WBEM_E_INVALID_STREAM"@.len() == 21);
            assert(!is_family_name("WBEM_E_INVALID_STREAM"@));
        },
        0x8004100Cu32 => {
            reveal_strlit("WBEM_E_NOT_SUPPORTED");
            reveal_strlit("Feature or operation is not supported.");
            assert(WBEM_E_NOT_SUPPORTED_EN@ == "Feature or operation is not supported."@);
            assert("WBEM_E_NOT_SUPPORTED"@.len() == 20);
            assert(!is_family_name("WBEM_E_NOT_SUPPORTED"@));
        },
        0x8004100Du32 => {
            reveal_strlit("WBEM_E_INVALID_SUPERCLASS");
            reveal_strlit("Parent class specified is not valid.");
            assert(WBEM_E_INVALID_SUPERCLASS_EN@ == "Parent class specified is not valid."@);
            assert("WBEM_E_INVALID_SUPERCLASS"@.len() == 25);
            assert(!is_family_name("WBEM_E_INVALID_SUPERCLASS"@));
        },
        0x8004100Eu32 => {
            reveal_strlit("WBEM_E_INVALID_NAMESPACE");
            reveal_strlit("Namespace specified cannot be found.");
            assert(WBEM_E_INVALID_NAMESPACE_EN@ == "Namespace specified cannot be found."@);
            assert("WBEM_E_INVALID_NAMESPACE"@.len() == 24);
            assert(!is_family_name("WBEM_E_INVALID_NAMESPACE"@));
        },
        0x8004100Fu32 => {
            reveal_strlit("WBEM_E_INVALID_OBJECT");
            reveal_strlit("Specified instance is not valid.");
            assert(WBEM_E_INVALID_OBJECT_EN@ == "Specified instance is not valid."@);
            assert("WBEM_E_INVALID_OBJECT"@.len() == 21);
            assert(!is_family_name("WBEM_E_INVALID_OBJECT"@));
        },
        0x80041010u32 => {
            reveal_strlit("WBEM_E_INVALID_CLASS");
            reveal_strlit("Specified class is not valid.");
            assert(WBEM_E_INVALID_CLASS_EN@ == "Specified class is not valid."@);
            assert("WBEM_E_INVALID_CLASS"@.len() == 20);
            assert(!is_family_name("WBEM_E_INVALID_CLASS"@));
        },
        0x80041011u32 => {
            reveal_strlit("WBEM_E_PROVIDER_NOT_FOUND");
            reveal_strlit("Provider referenced in the schema does not have a corresponding registration.");
            assert(WBEM_E_PROVIDER_NOT_FOUND_EN@ == "Provider referenced in the schema does not have a corresponding registration."@);
            assert("WBEM_E_PROVIDER_NOT_FOUND"@.len() == 25);
            assert(!is_family_name("WBEM_E_PROVIDER_NOT_FOUND"@));
        },
        0x80041012u32 => {
            reveal_strlit("WBEM_E_INVALID_PROVIDER_REGISTRATION");
            reveal_strlit("Provider referenced in the schema has an incorrect or incomplete registration.
    \n
    \nThis error may be caused by many conditions, including the following:
    \n
    \n• A missing #pragma namespace command in the Managed Object Format (MOF) file used to \
    register the provider. The provider may be registered in the wrong WMI namespace.
    \n• Failure to retrieve the COM registration.
    \n• Hosting model is not valid. For more information, see Provider Hosting and Security.
    \n• An class specified in the registration is not valid.
    \n• Failure to create an instance of or inherit from the __Win32Provider class to create the \
    provider registration in the MOF file.");
            assert(WBEM_E_INVALID_PROVIDER_REGISTRATION_EN@ == "Provider referenced in the schema has an incorrect or incomplete registration.
    \n
    \nThis error may be caused by many conditions, including the following:
    \n
    \n• A missing #pragma namespace command in the Managed Object Format (MOF) file used to \
    register the provider. The provider may be registered in the wrong WMI namespace.
    \n• Failure to retrieve the COM registration.
    \n• Hosting model is not valid. For more information, see Provider Hosting and Security.
    \n• An class specified in the registration is not valid.
    \n• Failure to create an instance of or inherit from the __Win32Provider class to create the \
    provider registration in the MOF file."@);
            assert("WBEM_E_INVALID_PROVIDER_REGISTRATION"@.len() == 36);
            assert(!is_family_name("WBEM_E_INVALID_PROVIDER_REGISTRATION"@));
        },
        0x80041013u32 => {
            reveal_strlit("WBEM_E_PROVIDER_LOAD_FAILURE");
            reveal_strlit("COM cannot locate a provider referenced in the schema.
    \n
    \nThis error may be caused by many conditions, including the following:
    \n
    \n• Provider is using a WMI DLL that does not match the .lib file used when the provider was \
    built.
    \n• Provider's DLL, or any of the DLLs on which it depends, is corrupt.
    \n• Provider failed to export DllRegisterServer.
    \n• In-process provider was not registered using the regsvr32 command.
    \n• Out-of-process provider was not registered using the /regserver switch. For example, \
    myprog.exe /regserver.");
            assert(WBEM_E_PROVIDER_LOAD_FAILURE_EN@ == "COM cannot locate a provider referenced in the schema.
    \n
    \nThis error may be caused by many conditions, including the following:
    \n
    \n• Provider is using a WMI DLL that does not match the .lib file used when the provider was \
    built.
    \n• Provider's DLL, or any of the DLLs on which it depends, is corrupt.
    \n• Provider failed to export DllRegisterServer.
    \n• In-process provider was not registered using the regsvr32 command.
    \n• Out-of-process provider was not registered using the /regserver switch. For example, \
    myprog.exe /regserver."@);
            assert("WBEM_E_PROVIDER_LOAD_FAILURE"@.len() == 28);
            assert(!is_family_name("WBEM_E_PROVIDER_LOAD_FAILURE"@));
        },
        0x80041014u32 => {
            reveal_strlit("WBEM_E_INITIALIZATION_FAILURE");
            reveal_strlit("Component, such as a provider, failed to initialize for internal reasons.");
            assert(WBEM_E_INITIALIZATION_FAILURE_EN@ == "Component, such as a provider, failed to initialize for internal reasons."@);
            assert("WBEM_E_INITIALIZATION_FAILURE"@.len() == 29);
            assert(!is_family_name("WBEM_E_INITIALIZATION_FAILURE"@));
        },
        0x80041015u32 => {
            reveal_strlit("WBEM_E_TRANSPORT_FAILURE");
            reveal_strlit("Networking error that prevents normal operation has occurred.");
            assert(WBEM_E_TRANSPORT_FAILURE_EN@ == "Networking error that prevents normal operation has occurred."@);
            assert("WBEM_E_TRANSPORT_FAILURE"@.len() == 24);
            assert(!is_family_name("WBEM_E_TRANSPORT_FAILURE"@));
        },
        0x80041016u32 => {
            reveal_strlit("WBEM_E_INVALID_OPERATION");
            reveal_strlit("Requested operation is not valid. This error usually applies to invalid attempts to delete \
    classes or properties.");
            assert(WBEM_E_INVALID_OPERATION_EN@ == "Requested operation is not valid. This error usually applies to invalid attempts to delete \
    classes or properties."@);
            assert("WBEM_E_INVALID_OPERATION"@.len() == 24);
            assert(!is_family_name("WBEM_E_INVALID_OPERATION"@));
        },
        0x80041017u32 => {
            reveal_strlit("WBEM_E_INVALID_QUERY");
            reveal_strlit("Query was not syntactically valid.");
            assert(WBEM_E_INVALID_QUERY_EN@ == "Query was not syntactically valid."@);
            assert("WBEM_E_INVALID_QUERY"@.len() == 20);
            assert(!is_family_name("WBEM_E_INVALID_QUERY"@));
        },
        0x80041018u32 => {
            reveal_strlit("WBEM_E_INVALID_QUERY_TYPE");
            reveal_strlit("Requested query language is not supported.");
            assert(WBEM_E_INVALID_QUERY_TYPE_EN@ == "Requested query language is not supported."@);
            assert("WBEM_E_INVALID_QUERY_TYPE"@.len() == 25);
            assert(!is_family_name("WBEM_E_INVALID_QUERY_TYPE"@));
        },
        0x80041019u32 => {
            reveal_strlit("WBEM_E_ALREADY_EXISTS");
            reveal_strlit("In a put operation, the wbemChangeFlagCreateOnly flag was specified, but the instance already \
    exists.");
            assert(WBEM_E_ALREADY_EXISTS_EN@ == "In a put operation, the wbemChangeFlagCreateOnly flag was specified, but the instance already \
    exists."@);
            assert("WBEM_E_ALREADY_EXISTS"@.len() == 21);
            assert(!is_family_name("WBEM_E_ALREADY_EXISTS"@));
        },
        0x8004101Au32 => {
            reveal_strlit("WBEM_E_OVERRIDE_NOT_ALLOWED");
            reveal_strlit("Not possible to perform the add operation on this qualifier because the owning object does \
    not permit overrides.");
            assert(WBEM_E_OVERRIDE_NOT_ALLOWED_EN@ == "Not possible to perform the add operation on this qualifier because the owning object does \
    not permit overrides."@);
            assert("WBEM_E_OVERRIDE_NOT_ALLOWED"@.len() == 27);
            assert(!is_family_name("WBEM_E_OVERRIDE_NOT_ALLOWED"@));
        },
        0x8004101Bu32 => {
            reveal_strlit("WBEM_E_PROPAGATED_QUALIFIER");
            reveal_strlit("User attempted to delete a qualifier that was not owned. The qualifier was inherited from a \
    parent class.");
            assert(WBEM_E_PROPAGATED_QUALIFIER_EN@ == "User attempted to delete a qualifier that was not owned. The qualifier was inherited from a \
    parent class."@);
            assert("WBEM_E_PROPAGATED_QUALIFIER"@.len() == 27);
            assert(!is_family_name("WBEM_E_PROPAGATED_QUALIFIER"@));
        },
        0x8004101Cu32 => {
            reveal_strlit("WBEM_E_PROPAGATED_PROPERTY");
            reveal_strlit("User attempted to delete a property that was not owned. The property was inherited from a \
    parent class.");
            assert(WBEM_E_PROPAGATED_PROPERTY_EN@ == "User attempted to delete a property that was not owned. The property was inherited from a \
    parent class."@);
            assert("WBEM_E_PROPAGATED_PROPERTY"@.len() == 26);
            assert(!is_family_name("WBEM_E_PROPAGATED_PROPERTY"@));
        },
        0x8004101Du32 => {
            reveal_strlit("WBEM_E_UNEXPECTED");
            reveal_strlit("Client made an unexpected and illegal sequence of calls, such as calling EndEnumeration \
    before calling BeginEnumeration.");
            assert(WBEM_E_UNEXPECTED_EN@ == "Client made an unexpected and illegal sequence of calls, such as calling EndEnumeration \
    before calling BeginEnumeration."@);
            assert("WBEM_E_UNEXPECTED"@.len() == 17);
            assert(!is_family_name("WBEM_E_UNEXPECTED"@));
        },
        0x8004101Eu32 => {
            reveal_strlit("WBEM_E_ILLEGAL_OPERATION");
            reveal_strlit("User requested an illegal operation, such as spawning a class from an instance.");
            assert(WBEM_E_ILLEGAL_OPERATION_EN@ == "User requested an illegal operation, such as spawning a class from an instance."@);
            assert("WBEM_E_ILLEGAL_OPERATION"@.len() == 24);
            assert(!is_family_name("WBEM_E_ILLEGAL_OPERATION"@));
        },
        0x8004101Fu32 => {
            reveal_strlit("WBEM_E_CANNOT_BE_KEY");
            reveal_strlit("Illegal attempt to specify a key qualifier on a property that cannot be a key. The keys are \
    specified in the class definition for an object and cannot be altered on a per-instance basis.");
            assert(WBEM_E_CANNOT_BE_KEY_EN@ == "Illegal attempt to specify a key qualifier on a property that cannot be a key. The keys are \
    specified in the class definition for an object and cannot be altered on a per-instance basis."@);
            assert("WBEM_E_CANNOT_BE_KEY"@.len() == 20);
            assert(!is_family_name("WBEM_E_CANNOT_BE_KEY"@));
        },
        0x80041020u32 => {
            reveal_strlit("WBEM_E_INCOMPLETE_CLASS");
            reveal_strlit("Current object is not a valid class definition. Either it is incomplete or it has not been \
    registered with WMI using SWbemObject.Put_.");
            assert(WBEM_E_INCOMPLETE_CLASS_EN@ == "Current object is not a valid class definition. Either it is incomplete or it has not been \
    registered with WMI using SWbemObject.Put_."@);
            assert("WBEM_E_INCOMPLETE_CLASS"@.len() == 23);
            assert(!is_family_name("WBEM_E_INCOMPLETE_CLASS"@));
        },
        0x80041021u32 => {
            reveal_strlit("WBEM_E_INVALID_SYNTAX");
            reveal_strlit("Query is syntactically not valid.");
            assert(WBEM_E_INVALID_SYNTAX_EN@ == "Query is syntactically not valid."@);
            assert("WBEM_E_INVALID_SYNTAX"@.len() == 21);
            assert(!is_family_name("WBEM_E_INVALID_SYNTAX"@));
        },
        0x80041022u32 => {
            reveal_strlit("WBEM_E_NONDECORATED_OBJECT");
            reveal_strlit("Reserved for future use.");
            assert(WBEM_E_NONDECORATED_OBJECT_EN@ == "Reserved for future use."@);
            assert("WBEM_E_NONDECORATED_OBJECT"@.len() == 26);
            assert(!is_family_name("WBEM_E_NONDECORATED_OBJECT"@));
        },
        0x80041023u32 => {
            reveal_strlit("WBEM_E_READ_ONLY");
            reveal_strlit("An attempt was made to modify a read-only property.");
            assert(WBEM_E_READ_ONLY_EN@ == "An attempt was made to modify a read-only property."@);
            assert("WBEM_E_READ_ONLY"@.len() == 16);
            assert(!is_family_name("WBEM_E_READ_ONLY"@));
        },
        0x80041024u32 => {
            reveal_strlit("WBEM_E_PROVIDER_NOT_CAPABLE");
            reveal_strlit("Provider cannot perform the requested operation. This can include a query that is too \
    complex, retrieving an instance, creating or updating a class, deleting a class, or \
    enumerating a class.");
            assert(WBEM_E_PROVIDER_NOT_CAPABLE_EN@ == "Provider cannot perform the requested operation. This can include a query that is too \
    complex, retrieving an instance, creating or updating a class, deleting a class, or \
    enumerating a class."@);
            assert("WBEM_E_PROVIDER_NOT_CAPABLE"@.len() == 27);
            assert(!is_family_name("WBEM_E_PROVIDER_NOT_CAPABLE"@));
        },
        0x80041025u32 => {
            reveal_strlit("WBEM_E_CLASS_HAS_CHILDREN");
            reveal_strlit("Attempt was made to make a change that invalidates a subclass.");
            assert(WBEM_E_CLASS_HAS_CHILDREN_EN@ == "Attempt was made to make a change that invalidates a subclass."@);
            assert("WBEM_E_CLASS_HAS_CHILDREN"@.len() == 25);
            assert(!is_family_name("WBEM_E_CLASS_HAS_CHILDREN"@));
        },
        0x80041026u32 => {
            reveal_strlit("WBEM_E_CLASS_HAS_INSTANCES");
            reveal_strlit("Attempt was made to delete or modify a class that has instances.");
            assert(WBEM_E_CLASS_HAS_INSTANCES_EN@ == "Attempt was made to delete or modify a class that has instances."@);
            assert("WBEM_E_CLASS_HAS_INSTANCES"@.len() == 26);
            assert(!is_family_name("WBEM_E_CLASS_HAS_INSTANCES"@));
        },
        0x80041027u32 => {
            reveal_strlit("WBEM_E_QUERY_NOT_IMPLEMENTED");
            reveal_strlit("Reserved for future use.");
            assert(WBEM_E_QUERY_NOT_IMPLEMENTED_EN@ == "Reserved for future use."@);
            assert("WBEM_E_QUERY_NOT_IMPLEMENTED"@.len() == 28);
            assert(!is_family_name("WBEM_E_QUERY_NOT_IMPLEMENTED"@));
        },
        0x80041028u32 => {
            reveal_strlit("WBEM_E_ILLEGAL_NULL");
            reveal_strlit("Value of Nothing/NULL was specified for a property that must have a value, such as one that \
    is marked by a Key, Indexed, or Not_Null qualifier.");
            assert(WBEM_E_ILLEGAL_NULL_EN@ == "Value of Nothing/NULL was specified for a property that must have a value, such as one that \
    is marked by a Key, Indexed, or Not_Null qualifier."@);
            assert("WBEM_E_ILLEGAL_NULL"@.len() == 19);
            assert(!is_family_name("WBEM_E_ILLEGAL_NULL"@));
        },
        0x80041029u32 => {
            reveal_strlit("WBEM_E_INVALID_QUALIFIER_TYPE");
            reveal_strlit("Variant value for a qualifier was provided that is not a legal qualifier type.");
            assert(WBEM_E_INVALID_QUALIFIER_TYPE_EN@ == "Variant value for a qualifier was provided that is not a legal qualifier type."@);
            assert("WBEM_E_INVALID_QUALIFIER_TYPE"@.len() == 29);
            assert(!is_family_name("WBEM_E_INVALID_QUALIFIER_TYPE"@));
        },
        0x8004102Au32 => {
            reveal_strlit("WBEM_E_INVALID_PROPERTY_TYPE");
            reveal_strlit("CIM type specified for a property is not valid.");
            assert(WBEM_E_INVALID_PROPERTY_TYPE_EN@ == "CIM type specified for a property is not valid."@);
            assert("WBEM_E_INVALID_PROPERTY_TYPE"@.len() == 28);
            assert(!is_family_name("WBEM_E_INVALID_PROPERTY_TYPE"@));
        },
        0x8004102Bu32 => {
            reveal_strlit("WBEM_E_VALUE_OUT_OF_RANGE");
            reveal_strlit("Request was made with an out-of-range value or it is incompatible with the type.");
            assert(WBEM_E_VALUE_OUT_OF_RANGE_EN@ == "Request was made with an out-of-range value or it is incompatible with the type."@);
            assert("WBEM_E_VALUE_OUT_OF_RANGE"@.len() == 25);
            assert(!is_family_name("WBEM_E_VALUE_OUT_OF_RANGE"@));
        },
        0x8004102Cu32 => {
            reveal_strlit("WBEM_E_CANNOT_BE_SINGLETON");
            reveal_strlit("Illegal attempt was made to make a class singleton, such as when the class is derived from a \
    non-singleton class.");
            assert(WBEM_E_CANNOT_BE_SINGLETON_EN@ == "Illegal attempt was made to make a class singleton, such as when the class is derived from a \
    non-singleton class."@);
            assert("WBEM_E_CANNOT_BE_SINGLETON"@.len() == 26);
            assert(!is_family_name("WBEM_E_CANNOT_BE_SINGLETON"@));
        },
        0x8004102Du32 => {
            reveal_strlit("WBEM_E_INVALID_CIM_TYPE");
            reveal_strlit("CIM type specified is not valid.");
            assert(WBEM_E_INVALID_CIM_TYPE_EN@ == "CIM type specified is not valid."@);
            assert("WBEM_E_INVALID_CIM_TYPE"@.len() == 23);
            assert(!is_family_name("WBEM_E_INVALID_CIM_TYPE"@));
        },
        0x8004102Eu32 => {
            reveal_strlit("WBEM_E_INVALID_METHOD");
            reveal_strlit("Requested method is not available.");
            assert(WBEM_E_INVALID_METHOD_EN@ == "Requested method is not available."@);
            assert("WBEM_E_INVALID_METHOD"@.len() == 21);
            assert(!is_family_name("WBEM_E_INVALID_METHOD"@));
        },
        0x8004102Fu32 => {
            reveal_strlit("WBEM_E_INVALID_METHOD_PARAMETERS");
            reveal_strlit("Parameters provided for the method are not valid.");
            assert(WBEM_E_INVALID_METHOD_PARAMETERS_EN@ == "Parameters provided for the method are not valid."@);
            assert("WBEM_E_INVALID_METHOD_PARAMETERS"@.len() == 32);
            assert(!is_family_name("WBEM_E_INVALID_METHOD_PARAMETERS"@));
        },
        0x80041030u32 => {
            reveal_strlit("WBEM_E_SYSTEM_PROPERTY");
            reveal_strlit("There was an attempt to get qualifiers on a system property.");
            assert(WBEM_E_SYSTEM_PROPERTY_EN@ == "There was an attempt to get qualifiers on a system property."@);
            assert("WBEM_E_SYSTEM_PROPERTY"@.len() == 22);
            assert(!is_family_name("WBEM_E_SYSTEM_PROPERTY"@));
        },
        0x80041031u32 => {
            reveal_strlit("WBEM_E_INVALID_PROPERTY");
            reveal_strlit("Property type is not recognized.");
            assert(WBEM_E_INVALID_PROPERTY_EN@ == "Property type is not recognized."@);
            assert("WBEM_E_INVALID_PROPERTY"@.len() == 23);
            assert(!is_family_name("WBEM_E_INVALID_PROPERTY"@));
        },
        0x80041032u32 => {
            reveal_strlit("WBEM_E_CALL_CANCELLED");
            reveal_strlit("Asynchronous process has been canceled internally or by the user. Note that due to the timing \
    and nature of the asynchronous operation, the operation may not have been truly canceled.");
            assert(WBEM_E_CALL_CANCELLED_EN@ == "Asynchronous process has been canceled internally or by the user. Note that due to the timing \
    and nature of the asynchronous operation, the operation may not have been truly canceled."@);
            assert("WBEM_E_CALL_CANCELLED"@.len() == 21);
            assert(!is_family_name("WBEM_E_CALL_CANCELLED"@));
        },
        0x80041033u32 => {
            reveal_strlit("WBEM_E_SHUTTING_DOWN");
            reveal_strlit("User has requested an operation while WMI is in the process of shutting down.");
            assert(WBEM_E_SHUTTING_DOWN_EN@ == "User has requested an operation while WMI is in the process of shutting down."@);
            assert("WBEM_E_SHUTTING_DOWN"@.len() == 20);
            assert(!is_family_name("WBEM_E_SHUTTING_DOWN"@));
        },
        0x80041034u32 => {
            reveal_strlit("WBEM_E_PROPAGATED_METHOD");
            reveal_strlit("Attempt was made to reuse an existing method name from a parent class and the signatures do \
    not match.");
            assert(WBEM_E_PROPAGATED_METHOD_EN@ == "Attempt was made to reuse an existing method name from a parent class and the signatures do \
    not match."@);
            assert("WBEM_E_PROPAGATED_METHOD"@.len() == 24);
            assert(!is_family_name("WBEM_E_PROPAGATED_METHOD"@));
        },
        0x80041035u32 => {
            reveal_strlit("WBEM_E_UNSUPPORTED_PARAMETER");
            reveal_strlit("One or more parameter values, such as a query text, is too complex or unsupported. WMI is \
    therefore requested to retry the operation with simpler parameters.");
            assert(WBEM_E_UNSUPPORTED_PARAMETER_EN@ == "One or more parameter values, such as a query text, is too complex or unsupported. WMI is \
    therefore requested to retry the operation with simpler parameters."@);
            assert("WBEM_E_UNSUPPORTED_PARAMETER"@.len() == 28);
            assert(!is_family_name("WBEM_E_UNSUPPORTED_PARAMETER"@));
        },
        0x80041036u32 => {
            reveal_strlit("WBEM_E_MISSING_PARAMETER_ID");
            reveal_strlit("Parameter was missing from the method call.");
            assert(WBEM_E_MISSING_PARAMETER_ID_EN@ == "Parameter was missing from the method call."@);
            assert("WBEM_E_MISSING_PARAMETER_ID"@.len() == 27);
            assert(!is_family_name("WBEM_E_MISSING_PARAMETER_ID"@));
        },
        0x80041037u32 => {
            reveal_strlit("WBEM_E_INVALID_PARAMETER_ID");
            reveal_strlit("Method parameter has an ID qualifier that is not valid.");
            assert(WBEM_E_INVALID_PARAMETER_ID_EN@ == "Method parameter has an ID qualifier that is not valid."@);
            assert("WBEM_E_INVALID_PARAMETER_ID"@.len() == 27);
            assert(!is_family_name("WBEM_E_INVALID_PARAMETER_ID"@));
        },
        0x80041038u32 => {
            reveal_strlit("WBEM_E_NONCONSECUTIVE_PARAMETER_IDS");
            reveal_strlit("One or more of the method parameters have ID qualifiers that are out of sequence.");
            assert(WBEM_E_NONCONSECUTIVE_PARAMETER_IDS_EN@ == "One or more of the method parameters have ID qualifiers that are out of sequence."@);
            assert("WBEM_E_NONCONSECUTIVE_PARAMETER_IDS"@.len() == 35);
            assert(!is_family_name("WBEM_E_NONCONSECUTIVE_PARAMETER_IDS"@));
        },
        0x80041039u32 => {
            reveal_strlit("WBEM_E_PARAMETER_ID_ON_RETVAL");
            reveal_strlit("Return value for a method has an ID qualifier.");
            assert(WBEM_E_PARAMETER_ID_ON_RETVAL_EN@ == "Return value for a method has an ID qualifier."@);
            assert("WBEM_E_PARAMETER_ID_ON_RETVAL"@.len() == 29);
            assert(!is_family_name("WBEM_E_PARAMETER_ID_ON_RETVAL"@));
        },
        0x8004103Au32 => {
            reveal_strlit("WBEM_E_INVALID_OBJECT_PATH");
            reveal_strlit("Specified object path was not valid.");
            assert(WBEM_E_INVALID_OBJECT_PATH_EN@ == "Specified object path was not valid."@);
            assert("WBEM_E_INVALID_OBJECT_PATH"@.len() == 26);
            assert(!is_family_name("WBEM_E_INVALID_OBJECT_PATH"@));
        },
        0x8004103Bu32 => {
            reveal_strlit("WBEM_E_OUT_OF_DISK_SPACE");
            reveal_strlit("Disk is out of space or the 4 GB limit on WMI repository (CIM repository) size is reached.");
            assert(WBEM_E_OUT_OF_DISK_SPACE_EN@ == "Disk is out of space or the 4 GB limit on WMI repository (CIM repository) size is reached."@);
            assert("WBEM_E_OUT_OF_DISK_SPACE"@.len() == 24);
            assert(!is_family_name("WBEM_E_OUT_OF_DISK_SPACE"@));
        },
        0x8004103Cu32 => {
            reveal_strlit("WBEM_E_BUFFER_TOO_SMALL");
            reveal_strlit("Supplied buffer was too small to hold all of the objects in the enumerator or to read a \
    string property.");
            assert(WBEM_E_BUFFER_TOO_SMALL_EN@ == "Supplied buffer was too small to hold all of the objects in the enumerator or to read a \
    string property."@);
            assert("WBEM_E_BUFFER_TOO_SMALL"@.len() == 23);
            assert(!is_family_name("WBEM_E_BUFFER_TOO_SMALL"@));
        },
        0x8004103Du32 => {
            reveal_strlit("WBEM_E_UNSUPPORTED_PUT_EXTENSION");
            reveal_strlit("Provider does not support the requested put operation.");
            assert(WBEM_E_UNSUPPORTED_PUT_EXTENSION_EN@ == "Provider does not support the requested put operation."@);
            assert("WBEM_E_UNSUPPORTED_PUT_EXTENSION"@.len() == 32);
            assert(!is_family_name("WBEM_E_UNSUPPORTED_PUT_EXTENSION"@));
        },
        0x8004103Eu32 => {
            reveal_strlit("WBEM_E_UNKNOWN_OBJECT_TYPE");
            reveal_strlit("Object with an incorrect type or version was encountered during marshaling.");
            assert(WBEM_E_UNKNOWN_OBJECT_TYPE_EN@ == "Object with an incorrect type or version was encountered during marshaling."@);
            assert("WBEM_E_UNKNOWN_OBJECT_TYPE"@.len() == 26);
            assert(!is_family_name("WBEM_E_UNKNOWN_OBJECT_TYPE"@));
        },
        0x8004103Fu32 => {
            reveal_strlit("WBEM_E_UNKNOWN_PACKET_TYPE");
            reveal_strlit("Packet with an incorrect type or version was encountered during marshaling.");
            assert(WBEM_E_UNKNOWN_PACKET_TYPE_EN@ == "Packet with an incorrect type or version was encountered during marshaling."@);
            assert("WBEM_E_UNKNOWN_PACKET_TYPE"@.len() == 26);
            assert(!is_family_name("WBEM_E_UNKNOWN_PACKET_TYPE"@));
        },
        0x80041040u32 => {
            reveal_strlit("WBEM_E_MARSHAL_VERSION_MISMATCH");
            reveal_strlit("Packet has an unsupported version.");
            assert(WBEM_E_MARSHAL_VERSION_MISMATCH_EN@ == "Packet has an unsupported version."@);
            assert("WBEM_E_MARSHAL_VERSION_MISMATCH"@.len() == 31);
            assert(!is_family_name("WBEM_E_MARSHAL_VERSION_MISMATCH"@));
        },
        0x80041041u32 => {
            reveal_strlit("WBEM_E_MARSHAL_INVALID_SIGNATURE");
            reveal_strlit("Packet appears to be corrupt.");
            assert(WBEM_E_MARSHAL_INVALID_SIGNATURE_EN@ == "Packet appears to be corrupt."@);
            assert("WBEM_E_MARSHAL_INVALID_SIGNATURE"@.len() == 32);
            assert(!is_family_name("WBEM_E_MARSHAL_INVALID_SIGNATURE"@));
        },
        0x80041042u32 => {
            reveal_strlit("WBEM_E_INVALID_QUALIFIER");
            reveal_strlit("Attempt was made to mismatch qualifiers, such as putting [key] on an object instead of a \
    property.");
            assert(WBEM_E_INVALID_QUALIFIER_EN@ == "Attempt was made to mismatch qualifiers, such as putting [key] on an object instead of a \
    property."@);
            assert("WBEM_E_INVALID_QUALIFIER"@.len() == 24);
            assert(!is_family_name("WBEM_E_INVALID_QUALIFIER"@));
        },
        0x80041043u32 => {
            reveal_strlit("WBEM_E_INVALID_DUPLICATE_PARAMETER");
            reveal_strlit("Duplicate parameter was declared in a CIM method.");
            assert(WBEM_E_INVALID_DUPLICATE_PARAMETER_EN@ == "Duplicate parameter was declared in a CIM method."@);
            assert("WBEM_E_INVALID_DUPLICATE_PARAMETER"@.len() == 34);
            assert(!is_family_name("WBEM_E_INVALID_DUPLICATE_PARAMETER"@));
        },
        0x80041044u32 => {
            reveal_strlit("WBEM_E_TOO_MUCH_DATA");
            reveal_strlit("Reserved for future use.");
            assert(WBEM_E_TOO_MUCH_DATA_EN@ == "Reserved for future use."@);
            assert("WBEM_E_TOO_MUCH_DATA"@.len() == 20);
            assert(!is_family_name("WBEM_E_TOO_MUCH_DATA"@));
        },
        0x80041045u32 => {
            reveal_strlit("WBEM_E_SERVER_TOO_BUSY");
            reveal_strlit("Call to IWbemObjectSink::Indicate has failed. The provider can refire the event.");
            assert(WBEM_E_SERVER_TOO_BUSY_EN@ == "Call to IWbemObjectSink::Indicate has failed. The provider can refire the event."@);
            assert("WBEM_E_SERVER_TOO_BUSY"@.len() == 22);
            assert(!is_family_name("WBEM_E_SERVER_TOO_BUSY"@));
        },
        0x80041046u32 => {
            reveal_strlit("WBEM_E_INVALID_FLAVOR");
            reveal_strlit("Specified qualifier flavor was not valid.");
            assert(WBEM_E_INVALID_FLAVOR_EN@ == "Specified qualifier flavor was not valid."@);
            assert("WBEM_E_INVALID_FLAVOR"@.len() == 21);
            assert(!is_family_name("WBEM_E_INVALID_FLAVOR"@));
        },
        0x80041047u32 => {
            reveal_strlit("WBEM_E_CIRCULAR_REFERENCE");
            reveal_strlit("Attempt was made to create a reference that is circular (for example, deriving a class from \
    itself).");
            assert(WBEM_E_CIRCULAR_REFERENCE_EN@ == "Attempt was made to create a reference that is circular (for example, deriving a class from \
    itself)."@);
            assert("WBEM_E_CIRCULAR_REFERENCE"@.len() == 25);
            assert(!is_family_name("WBEM_E_CIRCULAR_REFERENCE"@));
        },
        0x80041048u32 => {
            reveal_strlit("WBEM_E_UNSUPPORTED_CLASS_UPDATE");
            reveal_strlit("Specified class is not supported.");
            assert(WBEM_E_UNSUPPORTED_CLASS_UPDATE_EN@ == "Specified class is not supported."@);
            assert("WBEM_E_UNSUPPORTED_CLASS_UPDATE"@.len() == 31);
            assert(!is_family_name("WBEM_E_UNSUPPORTED_CLASS_UPDATE"@));
        },
        0x80041049u32 => {
            reveal_strlit("WBEM_E_CANNOT_CHANGE_KEY_INHERITANCE");
            reveal_strlit("Attempt was made to change a key when instances or subclasses are already using the key.");
            assert(WBEM_E_CANNOT_CHANGE_KEY_INHERITANCE_EN@ == "Attempt was made to change a key when instances or subclasses are already using the key."@);
            assert("WBEM_E_CANNOT_CHANGE_KEY_INHERITANCE"@.len() == 36);
            assert(!is_family_name("WBEM_E_CANNOT_CHANGE_KEY_INHERITANCE"@));
        },
        0x80041050u32 => {
            reveal_strlit("WBEM_E_CANNOT_CHANGE_INDEX_INHERITANCE");
            reveal_strlit("An attempt was made to change an index when instances or subclasses are already using the \
    index.");
            assert(WBEM_E_CANNOT_CHANGE_INDEX_INHERITANCE_EN@ == "An attempt was made to change an index when instances or subclasses are already using the \
    index."@);
            assert("WBEM_E_CANNOT_CHANGE_INDEX_INHERITANCE"@.len() == 38);
            assert(!is_family_name("WBEM_E_CANNOT_CHANGE_INDEX_INHERITANCE"@));
        },
        0x80041051u32 => {
            reveal_strlit("WBEM_E_TOO_MANY_PROPERTIES");
            reveal_strlit("Attempt was made to create more properties than the current version of the class supports.");
            assert(WBEM_E_TOO_MANY_PROPERTIES_EN@ == "Attempt was made to create more properties than the current version of the class supports."@);
            assert("WBEM_E_TOO_MANY_PROPERTIES"@.len() == 26);
            assert(!is_family_name("WBEM_E_TOO_MANY_PROPERTIES"@));
        },
        0x80041052u32 => {
            reveal_strlit("WBEM_E_UPDATE_TYPE_MISMATCH");
            reveal_strlit("Property was redefined with a conflicting type in a derived class.");
            assert(WBEM_E_UPDATE_TYPE_MISMATCH_EN@ == "Property was redefined with a conflicting type in a derived class."@);
            assert("WBEM_E_UPDATE_TYPE_MISMATCH"@.len() == 27);
            assert(!is_family_name("WBEM_E_UPDATE_TYPE_MISMATCH"@));
        },
        0x80041053u32 => {
            reveal_strlit("WBEM_E_UPDATE_OVERRIDE_NOT_ALLOWED");
            reveal_strlit("Attempt was made in a derived class to override a qualifier that cannot be overridden.");
            assert(WBEM_E_UPDATE_OVERRIDE_NOT_ALLOWED_EN@ == "Attempt was made in a derived class to override a qualifier that cannot be overridden."@);
            assert("WBEM_E_UPDATE_OVERRIDE_NOT_ALLOWED"@.len() == 34);
            assert(!is_family_name("WBEM_E_UPDATE_OVERRIDE_NOT_ALLOWED"@));
        },
        0x80041054u32 => {
            reveal_strlit("WBEM_E_UPDATE_PROPAGATED_METHOD");
            reveal_strlit("Method was re-declared with a conflicting signature in a derived class.");
            assert(WBEM_E_UPDATE_PROPAGATED_METHOD_EN@ == "Method was re-declared with a conflicting signature in a derived class."@);
            assert("WBEM_E_UPDATE_PROPAGATED_METHOD"@.len() == 31);
            assert(!is_family_name("WBEM_E_UPDATE_PROPAGATED_METHOD"@));
        },
        0x80041055u32 => {
            reveal_strlit("WBEM_E_METHOD_NOT_IMPLEMENTED");
            reveal_strlit("Attempt was made to execute a method not marked with [implemented] in any relevant class.");
            assert(WBEM_E_METHOD_NOT_IMPLEMENTED_EN@ == "Attempt was made to execute a method not marked with [implemented] in any relevant class."@);
            assert("WBEM_E_METHOD_NOT_IMPLEMENTED"@.len() == 29);
            assert(!is_family_name("WBEM_E_METHOD_NOT_IMPLEMENTED"@));
        },
        0x80041056u32 => {
            reveal_strlit("WBEM_E_METHOD_DISABLED");
            reveal_strlit("Attempt was made to execute a method marked with [disabled].");
            assert(WBEM_E_METHOD_DISABLED_EN@ == "Attempt was made to execute a method marked with [disabled]."@);
            assert("WBEM_E_METHOD_DISABLED"@.len() == 22);
            assert(!is_family_name("WBEM_E_METHOD_DISABLED"@));
        },
        0x80041057u32 => {
            reveal_strlit("WBEM_E_REFRESHER_BUSY");
            reveal_strlit("Refresher is busy with another operation.");
            assert(WBEM_E_REFRESHER_BUSY_EN@ == "Refresher is busy with another operation."@);
            assert("WBEM_E_REFRESHER_BUSY"@.len() == 21);
            assert(!is_family_name("WBEM_E_REFRESHER_BUSY"@));
        },
        0x80041058u32 => {
            reveal_strlit("WBEM_E_UNPARSABLE_QUERY");
            reveal_strlit("Filtering query is syntactically not valid.");
            assert(WBEM_E_UNPARSABLE_QUERY_EN@ == "Filtering query is syntactically not valid."@);
            assert("WBEM_E_UNPARSABLE_QUERY"@.len() == 23);
            assert(!is_family_name("WBEM_E_UNPARSABLE_QUERY"@));
        },
        0x80041059u32 => {
            reveal_strlit("WBEM_E_NOT_EVENT_CLASS");
            reveal_strlit("The FROM clause of a filtering query references a class that is not an event class (not \
    derived from __Event).");
            assert(WBEM_E_NOT_EVENT_CLASS_EN@ == "The FROM clause of a filtering query references a class that is not an event class (not \
    derived from __Event)."@);
            assert("WBEM_E_NOT_EVENT_CLASS"@.len() == 22);
            assert(!is_family_name("WBEM_E_NOT_EVENT_CLASS"@));
        },
        0x8004105Au32 => {
            reveal_strlit("WBEM_E_MISSING_GROUP_WITHIN");
            reveal_strlit("A GROUP BY clause was used without the corresponding GROUP WITHIN clause.");
            assert(WBEM_E_MISSING_GROUP_WITHIN_EN@ == "A GROUP BY clause was used without the corresponding GROUP WITHIN clause."@);
            assert("WBEM_E_MISSING_GROUP_WITHIN"@.len() == 27);
            assert(!is_family_name("WBEM_E_MISSING_GROUP_WITHIN"@));
        },
        0x8004105Bu32 => {
            reveal_strlit("WBEM_E_MISSING_AGGREGATION_LIST");
            reveal_strlit("A GROUP BY clause was used. Aggregation on all properties is not supported.");
            assert(WBEM_E_MISSING_AGGREGATION_LIST_EN@ == "A GROUP BY clause was used. Aggregation on all properties is not supported."@);
            assert("WBEM_E_MISSING_AGGREGATION_LIST"@.len() == 31);
            assert(!is_family_name("WBEM_E_MISSING_AGGREGATION_LIST"@));
        },
        0x8004105Cu32 => {
            reveal_strlit("WBEM_E_PROPERTY_NOT_AN_OBJECT");
            reveal_strlit("Dot notation was used on a property that is not an embedded object.");
            assert(WBEM_E_PROPERTY_NOT_AN_OBJECT_EN@ == "Dot notation was used on a property that is not an embedded object."@);
            assert("WBEM_E_PROPERTY_NOT_AN_OBJECT"@.len() == 29);
            assert(!is_family_name("WBEM_E_PROPERTY_NOT_AN_OBJECT"@));
        },
        0x8004105Du32 => {
            reveal_strlit("WBEM_E_AGGREGATING_BY_OBJECT");
            reveal_strlit("A GROUP BY clause references a property that is an embedded object without using dot notation.");
            assert(WBEM_E_AGGREGATING_BY_OBJECT_EN@ == "A GROUP BY clause references a property that is an embedded object without using dot notation."@);
            assert("WBEM_E_AGGREGATING_BY_OBJECT"@.len() == 28);
            assert(!is_family_name("WBEM_E_AGGREGATING_BY_OBJECT"@));
        },
        0x8004105Fu32 => {
            reveal_strlit("WBEM_E_UNINTERPRETABLE_PROVIDER_QUERY");
            reveal_strlit("Event provider registration query (__EventProviderRegistration) did not specify the classes \
    for which events were provided.");
            assert(WBEM_E_UNINTERPRETABLE_PROVIDER_QUERY_EN@ == "Event provider registration query (__EventProviderRegistration) did not specify the classes \
    for which events were provided."@);
            assert("WBEM_E_UNINTERPRETABLE_PROVIDER_QUERY"@.len() == 37);
            assert(!is_family_name("WBEM_E_UNINTERPRETABLE_PROVIDER_QUERY"@));
        },
        0x80041060u32 => {
            reveal_strlit("WBEM_E_BACKUP_RESTORE_WINMGMT_RUNNING");
            reveal_strlit("Request was made to back up or restore the repository while it was in use by WinMgmt.exe, or \
    by the SVCHOST process that contains the WMI service.");
            assert(WBEM_E_BACKUP_RESTORE_WINMGMT_RUNNING_EN@ == "Request was made to back up or restore the repository while it was in use by WinMgmt.exe, or \
    by the SVCHOST process that contains the WMI service."@);
            assert("WBEM_E_BACKUP_RESTORE_WINMGMT_RUNNING"@.len() == 37);
            assert(!is_family_name("WBEM_E_BACKUP_RESTORE_WINMGMT_RUNNING"@));
        },
        0x80041061u32 => {
            reveal_strlit("WBEM_E_QUEUE_OVERFLOW");
            reveal_strlit("Asynchronous delivery queue overflowed from the event consumer being too slow.");
            assert(WBEM_E_QUEUE_OVERFLOW_EN@ == "Asynchronous delivery queue overflowed from the event consumer being too slow."@);
            assert("WBEM_E_QUEUE_OVERFLOW"@.len() == 21);
            assert(!is_family_name("WBEM_E_QUEUE_OVERFLOW"@));
        },
        0x80041062u32 => {
            reveal_strlit("WBEM_E_PRIVILEGE_NOT_HELD");
            reveal_strlit("Operation failed because the client did not have the necessary security privilege.");
            assert(WBEM_E_PRIVILEGE_NOT_HELD_EN@ == "Operation failed because the client did not have the necessary security privilege."@);
            assert("WBEM_E_PRIVILEGE_NOT_HELD"@.len() == 25);
            assert(!is_family_name("WBEM_E_PRIVILEGE_NOT_HELD"@));
        },
        0x80041063u32 => {
            reveal_strlit("WBEM_E_INVALID_OPERATOR");
            reveal_strlit("Operator is not valid for this property type.");
            assert(WBEM_E_INVALID_OPERATOR_EN@ == "Operator is not valid for this property type."@);
            assert("WBEM_E_INVALID_OPERATOR"@.len() == 23);
            assert(!is_family_name("WBEM_E_INVALID_OPERATOR"@));
        },
        0x80041064u32 => {
            reveal_strlit("WBEM_E_LOCAL_CREDENTIALS");
            reveal_strlit("User specified a username/password/authority on a local connection. The user must use a blank \
    username/password and rely on default security.");
            assert(WBEM_E_LOCAL_CREDENTIALS_EN@ == "User specified a username/password/authority on a local connection. The user must use a blank \
    username/password and rely on default security."@);
            assert("WBEM_E_LOCAL_CREDENTIALS"@.len() == 24);
            assert(!is_family_name("WBEM_E_LOCAL_CREDENTIALS"@));
        },
        0x80041065u32 => {
            reveal_strlit("WBEM_E_CANNOT_BE_ABSTRACT");
            reveal_strlit("Class was made abstract when its parent class is not abstract.");
            assert(WBEM_E_CANNOT_BE_ABSTRACT_EN@ == "Class was made abstract when its parent class is not abstract."@);
            assert("WBEM_E_CANNOT_BE_ABSTRACT"@.len() == 25);
            assert(!is_family_name("WBEM_E_CANNOT_BE_ABSTRACT"@));
        },
        0x80041066u32 => {
            reveal_strlit("WBEM_E_AMENDED_OBJECT");
            reveal_strlit("Amended object was written without the WBEM_FLAG_USE_AMENDED_QUALIFIERS flag being specified.");
            assert(WBEM_E_AMENDED_OBJECT_EN@ == "Amended object was written without the WBEM_FLAG_USE_AMENDED_QUALIFIERS flag being specified."@);
            assert("WBEM_E_AMENDED_OBJECT"@.len() == 21);
            assert(!is_family_name("WBEM_E_AMENDED_OBJECT"@));
        },
        0x80041067u32 => {
            reveal_strlit("WBEM_E_CLIENT_TOO_SLOW");
            reveal_strlit("Client did not retrieve objects quickly enough from an enumeration. This constant is returned \
    when a client creates an enumeration object, but does not retrieve objects from the enumerator \
    in a timely fashion, causing the enumerator's object caches to back up.");
            assert(WBEM_E_CLIENT_TOO_SLOW_EN@ == "Client did not retrieve objects quickly enough from an enumeration. This constant is returned \
    when a client creates an enumeration object, but does not retrieve objects from the enumerator \
    in a timely fashion, causing the enumerator's object caches to back up."@);
            assert("WBEM_E_CLIENT_TOO_SLOW"@.len() == 22);
            assert(!is_family_name("WBEM_E_CLIENT_TOO_SLOW"@));
        },
        0x80041068u32 => {
            reveal_strlit("WBEM_E_NULL_SECURITY_DESCRIPTOR");
            reveal_strlit("Null security descriptor was used.");
            assert(WBEM_E_NULL_SECURITY_DESCRIPTOR_EN@ == "Null security descriptor was used."@);
            assert("WBEM_E_NULL_SECURITY_DESCRIPTOR"@.len() == 31);
            assert(!is_family_name("WBEM_E_NULL_SECURITY_DESCRIPTOR"@));
        },
        0x80041069u32 => {
            reveal_strlit("WBEM_E_TIMED_OUT");
            reveal_strlit("Operation timed out.");
            assert(WBEM_E_TIMED_OUT_EN@ == "Operation timed out."@);
            assert("WBEM_E_TIMED_OUT"@.len() == 16);
            assert(!is_family_name("WBEM_E_TIMED_OUT"@));
        },
        0x8004106Au32 => {
            reveal_strlit("WBEM_E_INVALID_ASSOCIATION");
            reveal_strlit("Association is not valid.");
            assert(WBEM_E_INVALID_ASSOCIATION_EN@ == "Association is not valid."@);
            assert("WBEM_E_INVALID_ASSOCIATION"@.len() == 26);
            assert(!is_family_name("WBEM_E_INVALID_ASSOCIATION"@));
        },
        0x8004106Bu32 => {
            reveal_strlit("WBEM_E_AMBIGUOUS_OPERATION");
            reveal_strlit("Operation was ambiguous.");
            assert(WBEM_E_AMBIGUOUS_OPERATION_EN@ == "Operation was ambiguous."@);
            assert("WBEM_E_AMBIGUOUS_OPERATION"@.len() == 26);
            assert(!is_family_name("WBEM_E_AMBIGUOUS_OPERATION"@));
        },
        0x8004106Cu32 => {
            reveal_strlit("WBEM_E_QUOTA_VIOLATION");
            reveal_strlit("WMI is taking up too much memory. This can be caused by low memory availability or excessive \
    memory consumption by WMI.");
            assert(WBEM_E_QUOTA_VIOLATION_EN@ == "WMI is taking up too much memory. This can be caused by low memory availability or excessive \
    memory consumption by WMI."@);
            assert("WBEM_E_QUOTA_VIOLATION"@.len() == 22);
            assert(!is_family_name("WBEM_E_QUOTA_VIOLATION"@));
        },
        0x8004106Du32 => {
            reveal_strlit("WBEM_E_TRANSACTION_CONFLICT");
            reveal_strlit("Operation resulted in a transaction conflict.");
            assert(WBEM_E_TRANSACTION_CONFLICT_EN@ == "Operation resulted in a transaction conflict."@);
            assert("WBEM_E_TRANSACTION_CONFLICT"@.len() == 27);
            assert(!is_family_name("WBEM_E_TRANSACTION_CONFLICT"@));
        },
        0x8004106Eu32 => {
            reveal_strlit("WBEM_E_FORCED_ROLLBACK");
            reveal_strlit("Transaction forced a rollback.");
            assert(WBEM_E_FORCED_ROLLBACK_EN@ == "Transaction forced a rollback."@);
            assert("WBEM_E_FORCED_ROLLBACK"@.len() == 22);
            assert(!is_family_name("WBEM_E_FORCED_ROLLBACK"@));
        },
        0x8004106Fu32 => {
            reveal_strlit("WBEM_E_UNSUPPORTED_LOCALE");
            reveal_strlit("Locale used in the call is not supported.");
            assert(WBEM_E_UNSUPPORTED_LOCALE_EN@ == "Locale used in the call is not supported."@);
            assert("WBEM_E_UNSUPPORTED_LOCALE"@.len() == 25);
            assert(!is_family_name("WBEM_E_UNSUPPORTED_LOCALE"@));
        },
        0x80041070u32 => {
            reveal_strlit("WBEM_E_HANDLE_OUT_OF_DATE");
            reveal_strlit("Object handle is out-of-date.");
            assert(WBEM_E_HANDLE_OUT_OF_DATE_EN@ == "Object handle is out-of-date."@);
            assert("WBEM_E_HANDLE_OUT_OF_DATE"@.len() == 25);
            assert(!is_family_name("WBEM_E_HANDLE_OUT_OF_DATE"@));
        },
        0x80041071u32 => {
            reveal_strlit("WBEM_E_CONNECTION_FAILED");
            reveal_strlit("Connection to the SQL database failed.");
            assert(WBEM_E_CONNECTION_FAILED_EN@ == "Connection to the SQL database failed."@);
            assert("WBEM_E_CONNECTION_FAILED"@.len() == 24);
            assert(!is_family_name("WBEM_E_CONNECTION_FAILED"@));
        },
        0x80041072u32 => {
            reveal_strlit("WBEM_E_INVALID_HANDLE_REQUEST");
            reveal_strlit("Handle request was not valid.");
            assert(WBEM_E_INVALID_HANDLE_REQUEST_EN@ == "Handle request was not valid."@);
            assert("WBEM_E_INVALID_HANDLE_REQUEST"@.len() == 29);
            assert(!is_family_name("WBEM_E_INVALID_HANDLE_REQUEST"@));
        },
        0x80041073u32 => {
            reveal_strlit("WBEM_E_PROPERTY_NAME_TOO_WIDE");
            reveal_strlit("Property name contains more than 255 characters.");
            assert(WBEM_E_PROPERTY_NAME_TOO_WIDE_EN@ == "Property name contains more than 255 characters."@);
            assert("WBEM_E_PROPERTY_NAME_TOO_WIDE"@.len() == 29);
            assert(!is_family_name("WBEM_E_PROPERTY_NAME_TOO_WIDE"@));
        },
        0x80041074u32 => {
            reveal_strlit("WBEM_E_CLASS_NAME_TOO_WIDE");
            reveal_strlit("Class name contains more than 255 characters.");
            assert(WBEM_E_CLASS_NAME_TOO_WIDE_EN@ == "Class name contains more than 255 characters."@);
            assert("WBEM_E_CLASS_NAME_TOO_WIDE"@.len() == 26);
            assert(!is_family_name("WBEM_E_CLASS_NAME_TOO_WIDE"@));
        },
        0x80041075u32 => {
            reveal_strlit("WBEM_E_METHOD_NAME_TOO_WIDE");
            reveal_strlit("Method name contains more than 255 characters.");
            assert(WBEM_E_METHOD_NAME_TOO_WIDE_EN@ == "Method name contains more than 255 characters."@);
            assert("WBEM_E_METHOD_NAME_TOO_WIDE"@.len() == 27);
            assert(!is_family_name("WBEM_E_METHOD_NAME_TOO_WIDE"@));
        },
        0x80041076u32 => {
            reveal_strlit("WBEM_E_QUALIFIER_NAME_TOO_WIDE");
            reveal_strlit("Qualifier name contains more than 255 characters.");
            assert(WBEM_E_QUALIFIER_NAME_TOO_WIDE_EN@ == "Qualifier name contains more than 255 characters."@);
            assert("WBEM_E_QUALIFIER_NAME_TOO_WIDE"@.len() == 30);
            assert(!is_family_name("WBEM_E_QUALIFIER_NAME_TOO_WIDE"@));
        },
        0x80041077u32 => {
            reveal_strlit("WBEM_E_RERUN_COMMAND");
            reveal_strlit("The SQL command must be rerun because there is a deadlock in SQL. This can be returned only \
    when data is being stored in an SQL database.");
            assert(WBEM_E_RERUN_COMMAND_EN@ == "The SQL command must be rerun because there is a deadlock in SQL. This can be returned only \
    when data is being stored in an SQL database."@);
            assert("WBEM_E_RERUN_COMMAND"@.len() == 20);
            assert(!is_family_name("WBEM_E_RERUN_COMMAND"@));
        },
        0x80041078u32 => {
            reveal_strlit("WBEM_E_DATABASE_VER_MISMATCH");
            reveal_strlit("The database version does not match the version that the repository driver processes.");
            assert(WBEM_E_DATABASE_VER_MISMATCH_EN@ == "The database version does not match the version that the repository driver processes."@);
            assert("WBEM_E_DATABASE_VER_MISMATCH"@.len() == 28);
            assert(!is_family_name("WBEM_E_DATABASE_VER_MISMATCH"@));
        },
        0x80041079u32 => {
            reveal_strlit("WBEM_E_VETO_DELETE");
            reveal_strlit("WMI cannot execute the delete operation because the provider does not allow it.");
            assert(WBEM_E_VETO_DELETE_EN@ == "WMI cannot execute the delete operation because the provider does not allow it."@);
            assert("WBEM_E_VETO_DELETE"@.len() == 18);
            assert(!is_family_name("WBEM_E_VETO_DELETE"@));
        },
        0x8004107Au32 => {
            reveal_strlit("WBEM_E_VETO_PUT");
            reveal_strlit("WMI cannot execute the put operation because the provider does not allow it.");
            assert(WBEM_E_VETO_PUT_EN@ == "WMI cannot execute the put operation because the provider does not allow it."@);
            assert("WBEM_E_VETO_PUT"@.len() == 15);
            assert(!is_family_name("WBEM_E_VETO_PUT"@));
        },
        0x80041080u32 => {
            reveal_strlit("WBEM_E_INVALID_LOCALE");
            reveal_strlit("Specified locale identifier was not valid for the operation.");
            assert(WBEM_E_INVALID_LOCALE_EN@ == "Specified locale identifier was not valid for the operation."@);
            assert("WBEM_E_INVALID_LOCALE"@.len() == 21);
            assert(!is_family_name("WBEM_E_INVALID_LOCALE"@));
        },
        0x80041081u32 => {
            reveal_strlit("WBEM_E_PROVIDER_SUSPENDED");
            reveal_strlit("Provider is suspended.");
            assert(WBEM_E_PROVIDER_SUSPENDED_EN@ == "Provider is suspended."@);
            assert("WBEM_E_PROVIDER_SUSPENDED"@.len() == 25);
            assert(!is_family_name("WBEM_E_PROVIDER_SUSPENDED"@));
        },
        0x80041082u32 => {
            reveal_strlit("WBEM_E_SYNCHRONIZATION_REQUIRED");
            reveal_strlit("Object must be written to the WMI repository and retrieved again before the requested \
    operation can succeed. This constant is returned when an object must be committed and \
    retrieved to see the property value.");
            assert(WBEM_E_SYNCHRONIZATION_REQUIRED_EN@ == "Object must be written to the WMI repository and retrieved again before the requested \
    operation can succeed. This constant is returned when an object must be committed and \
    retrieved to see the property value."@);
            assert("WBEM_E_SYNCHRONIZATION_REQUIRED"@.len() == 31);
            assert(!is_family_name("WBEM_E_SYNCHRONIZATION_REQUIRED"@));
        },
        0x80041083u32 => {
            reveal_strlit("WBEM_E_NO_SCHEMA");
            reveal_strlit("Operation cannot be completed; no schema is available.");
            assert(WBEM_E_NO_SCHEMA_EN@ == "Operation cannot be completed; no schema is available."@);
            assert("WBEM_E_NO_SCHEMA"@.len() == 16);
            assert(!is_family_name("WBEM_E_NO_SCHEMA"@));
        },
        0x80041084u32 => {
            reveal_strlit("WBEM_E_PROVIDER_ALREADY_REGISTERED");
            reveal_strlit("Provider cannot be registered because it is already registered.");
            assert(WBEM_E_PROVIDER_ALREADY_REGISTERED_EN@ == "Provider cannot be registered because it is already registered."@);
            assert("WBEM_E_PROVIDER_ALREADY_REGISTERED"@.len() == 34);
            assert(!is_family_name("WBEM_E_PROVIDER_ALREADY_REGISTERED"@));
        },
        0x80041085u32 => {
            reveal_strlit("WBEM_E_PROVIDER_NOT_REGISTERED");
            reveal_strlit("Provider was not registered.");
            assert(WBEM_E_PROVIDER_NOT_REGISTERED_EN@ == "Provider was not registered."@);
            assert("WBEM_E_PROVIDER_NOT_REGISTERED"@.len() == 30);
            assert(!is_family_name("WBEM_E_PROVIDER_NOT_REGISTERED"@));
        },
        0x80041086u32 => {
            reveal_strlit("WBEM_E_FATAL_TRANSPORT_ERROR");
            reveal_strlit("A fatal transport error occurred.");
            assert(WBEM_E_FATAL_TRANSPORT_ERROR_EN@ == "A fatal transport error occurred."@);
            assert("WBEM_E_FATAL_TRANSPORT_ERROR"@.len() == 28);
            assert(!is_family_name("WBEM_E_FATAL_TRANSPORT_ERROR"@));
        },
        0x80041087u32 => {
            reveal_strlit("WBEM_E_ENCRYPTED_CONNECTION_REQUIRED");
            reveal_strlit("User attempted to set a computer name or domain without an encrypted connection.");
            assert(WBEM_E_ENCRYPTED_CONNECTION_REQUIRED_EN@ == "User attempted to set a computer name or domain without an encrypted connection."@);
            assert("WBEM_E_ENCRYPTED_CONNECTION_REQUIRED"@.len() == 36);
            assert(!is_family_name("WBEM_E_ENCRYPTED_CONNECTION_REQUIRED"@));
        },
        0x80041088u32 => {
            reveal_strlit("WBEM_E_PROVIDER_TIMED_OUT");
            reveal_strlit("A provider failed to report results within the specified timeout.");
            assert(WBEM_E_PROVIDER_TIMED_OUT_EN@ == "A provider failed to report results within the specified timeout."@);
            assert("WBEM_E_PROVIDER_TIMED_OUT"@.len() == 25);
            assert(!is_family_name("WBEM_E_PROVIDER_TIMED_OUT"@));
        },
        0x80041089u32 => {
            reveal_strlit("WBEM_E_NO_KEY");
            reveal_strlit("User attempted to put an instance with no defined key.");
            assert(WBEM_E_NO_KEY_EN@ == "User attempted to put an instance with no defined key."@);
            assert("WBEM_E_NO_KEY"@.len() == 13);
            assert(!is_family_name("WBEM_E_NO_KEY"@));
        },
        0x8004108Au32 => {
            reveal_strlit("WBEM_E_PROVIDER_DISABLED");
            reveal_strlit("User attempted to register a provider instance but the COM server for the provider instance \
    was unloaded.");
            assert(WBEM_E_PROVIDER_DISABLED_EN@ == "User attempted to register a provider instance but the COM server for the provider instance \
    was unloaded."@);
            assert("WBEM_E_PROVIDER_DISABLED"@.len() == 24);
            assert(!is_family_name("WBEM_E_PROVIDER_DISABLED"@));
        },
        0x80042001u32 => {
            reveal_strlit("WBEMESS_E_REGISTRATION_TOO_BROAD");
            reveal_strlit("Provider registration overlaps with the system event domain.");
            assert(WBEMESS_E_REGISTRATION_TOO_BROAD_EN@ == "Provider registration overlaps with the system event domain."@);
            assert("WBEMESS_E_REGISTRATION_TOO_BROAD"@.len() == 32);
            assert(!is_family_name("WBEMESS_E_REGISTRATION_TOO_BROAD"@));
        },
        0x80042002u32 => {
            reveal_strlit("WBEMESS_E_REGISTRATION_TOO_PRECISE");
            reveal_strlit("A WITHIN clause was not used in this query.");
            assert(WBEMESS_E_REGISTRATION_TOO_PRECISE_EN@ == "A WITHIN clause was not used in this query."@);
            assert("WBEMESS_E_REGISTRATION_TOO_PRECISE"@.len() == 34);
            assert(!is_family_name("WBEMESS_E_REGISTRATION_TOO_PRECISE"@));
        },
        0x80042003u32 => {
            reveal_strlit("WBEMESS_E_AUTHZ_NOT_PRIVILEGED");
            reveal_strlit("This computer does not have the necessary domain permissions to support the security \
    functions that relate to the created subscription instance. Contact the Domain Administrator \
    to get this computer added to the Windows Authorization Access Group.");
            assert(WBEMESS_E_AUTHZ_NOT_PRIVILEGED_EN@ == "This computer does not have the necessary domain permissions to support the security \
    functions that relate to the created subscription instance. Contact the Domain Administrator \
    to get this computer added to the Windows Authorization Access Group."@);
            assert("WBEMESS_E_AUTHZ_NOT_PRIVILEGED"@.len() == 30);
            assert(!is_family_name("WBEMESS_E_AUTHZ_NOT_PRIVILEGED"@));
        },
        0x80044001u32 => {
            reveal_strlit("WBEMMOF_E_EXPECTED_QUALIFIER_NAME");
            reveal_strlit("Expected a qualifier name.");
            assert(WBEMMOF_E_EXPECTED_QUALIFIER_NAME_EN@ == "Expected a qualifier name."@);
            assert("WBEMMOF_E_EXPECTED_QUALIFIER_NAME"@.len() == 33);
            assert(!is_family_name("WBEMMOF_E_EXPECTED_QUALIFIER_NAME"@));
        },
        0x80044002u32 => {
            reveal_strlit("WBEMMOF_E_EXPECTED_SEMI");
            reveal_strlit("Expected semicolon or '='.");
            assert(WBEMMOF_E_EXPECTED_SEMI_EN@ == "Expected semicolon or '='."@);
            assert("WBEMMOF_E_EXPECTED_SEMI"@.len() == 23);
            assert(!is_family_name("WBEMMOF_E_EXPECTED_SEMI"@));
        },
        0x80044003u32 => {
            reveal_strlit("WBEMMOF_E_EXPECTED_OPEN_BRACE");
            reveal_strlit("Expected an opening brace.");
            assert(WBEMMOF_E_EXPECTED_OPEN_BRACE_EN@ == "Expected an opening brace."@);
            assert("WBEMMOF_E_EXPECTED_OPEN_BRACE"@.len() == 29);
            assert(!is_family_name("WBEMMOF_E_EXPECTED_OPEN_BRACE"@));
        },
        0x80044004u32 => {
            reveal_strlit("WBEMMOF_E_EXPECTED_CLOSE_BRACE");
            reveal_strlit("Missing closing brace or an illegal array element.");
            assert(WBEMMOF_E_EXPECTED_CLOSE_BRACE_EN@ == "Missing closing brace or an illegal array element."@);
            assert("WBEMMOF_E_EXPECTED_CLOSE_BRACE"@.len() == 30);
            assert(!is_family_name("WBEMMOF_E_EXPECTED_CLOSE_BRACE"@));
        },
        0x80044005u32 => {
            reveal_strlit("WBEMMOF_E_EXPECTED_CLOSE_BRACKET");
            reveal_strlit("Expected a closing bracket.");
            assert(WBEMMOF_E_EXPECTED_CLOSE_BRACKET_EN@ == "Expected a closing bracket."@);
            assert("WBEMMOF_E_EXPECTED_CLOSE_BRACKET"@.len() == 32);
            assert(!is_family_name("WBEMMOF_E_EXPECTED_CLOSE_BRACKET"@));
        },
        0x80044006u32 => {
            reveal_strlit("WBEMMOF_E_EXPECTED_CLOSE_PAREN");
            reveal_strlit("Expected closing parenthesis.");
            assert(WBEMMOF_E_EXPECTED_CLOSE_PAREN_EN@ == "Expected closing parenthesis."@);
            assert("WBEMMOF_E_EXPECTED_CLOSE_PAREN"@.len() == 30);
            assert(!is_family_name("WBEMMOF_E_EXPECTED_CLOSE_PAREN"@));
        },
        0x80044007u32 => {
            reveal_strlit("WBEMMOF_E_ILLEGAL_CONSTANT_VALUE");
            reveal_strlit("Numeric value out of range or strings without quotes.");
            assert(WBEMMOF_E_ILLEGAL_CONSTANT_VALUE_EN@ == "Numeric value out of range or strings without quotes."@);
            assert("WBEMMOF_E_ILLEGAL_CONSTANT_VALUE"@.len() == 32);
            assert(!is_family_name("WBEMMOF_E_ILLEGAL_CONSTANT_VALUE"@));
        },
        0x80044008u32 => {
            reveal_strlit("WBEMMOF_E_EXPECTED_TYPE_IDENTIFIER");
            reveal_strlit("Expected a type identifier.");
            assert(WBEMMOF_E_EXPECTED_TYPE_IDENTIFIER_EN@ == "Expected a type identifier."@);
            assert("WBEMMOF_E_EXPECTED_TYPE_IDENTIFIER"@.len() == 34);
            assert(!is_family_name("WBEMMOF_E_EXPECTED_TYPE_IDENTIFIER"@));
        },
        0x80044009u32 => {
            reveal_strlit("WBEMMOF_E_EXPECTED_OPEN_PAREN");
            reveal_strlit("Expected an open parenthesis.");
            assert(WBEMMOF_E_EXPECTED_OPEN_PAREN_EN@ == "Expected an open parenthesis."@);
            assert("WBEMMOF_E_EXPECTED_OPEN_PAREN"@.len() == 29);
            assert(!is_family_name("WBEMMOF_E_EXPECTED_OPEN_PAREN"@));
        },
        0x8004400Au32 => {
            reveal_strlit("WBEMMOF_E_UNRECOGNIZED_TOKEN");
            reveal_strlit("Unexpected token in the file.");
            assert(WBEMMOF_E_UNRECOGNIZED_TOKEN_EN@ == "Unexpected token in the file."@);
            assert("WBEMMOF_E_UNRECOGNIZED_TOKEN"@.len() == 28);
            assert(!is_family_name("WBEMMOF_E_UNRECOGNIZED_TOKEN"@));
        },
        0x8004400Bu32 => {
            reveal_strlit("WBEMMOF_E_UNRECOGNIZED_TYPE");
            reveal_strlit("Unrecognized or unsupported type identifier.");
            assert(WBEMMOF_E_UNRECOGNIZED_TYPE_EN@ == "Unrecognized or unsupported type identifier."@);
            assert("WBEMMOF_E_UNRECOGNIZED_TYPE"@.len() == 27);
            assert(!is_family_name("WBEMMOF_E_UNRECOGNIZED_TYPE"@));
        },
        0x8004400Cu32 => {
            reveal_strlit("WBEMMOF_E_EXPECTED_PROPERTY_NAME");
            reveal_strlit("Expected property or method name.");
            assert(WBEMMOF_E_EXPECTED_PROPERTY_NAME_EN@ == "Expected property or method name."@);
            assert("WBEMMOF_E_EXPECTED_PROPERTY_NAME"@.len() == 32);
            assert(!is_family_name("WBEMMOF_E_EXPECTED_PROPERTY_NAME"@));
        },
        0x8004400Du32 => {
            reveal_strlit("WBEMMOF_E_TYPEDEF_NOT_SUPPORTED");
            reveal_strlit("Typedefs and enumerated types are not supported.");
            assert(WBEMMOF_E_TYPEDEF_NOT_SUPPORTED_EN@ == "Typedefs and enumerated types are not supported."@);
            assert("WBEMMOF_E_TYPEDEF_NOT_SUPPORTED"@.len() == 31);
            assert(!is_family_name("WBEMMOF_E_TYPEDEF_NOT_SUPPORTED"@));
        },
        0x8004400Eu32 => {
            reveal_strlit("WBEMMOF_E_UNEXPECTED_ALIAS");
            reveal_strlit("Only a reference to a class object can have an alias value.");
            assert(WBEMMOF_E_UNEXPECTED_ALIAS_EN@ == "Only a reference to a class object can have an alias value."@);
            assert("WBEMMOF_E_UNEXPECTED_ALIAS"@.len() == 26);
            assert(!is_family_name("WBEMMOF_E_UNEXPECTED_ALIAS"@));
        },
        0x8004400Fu32 => {
            reveal_strlit("WBEMMOF_E_UNEXPECTED_ARRAY_INIT");
            reveal_strlit("Unexpected array initialization. Arrays must be declared with [].");
            assert(WBEMMOF_E_UNEXPECTED_ARRAY_INIT_EN@ == "Unexpected array initialization. Arrays must be declared with []."@);
            assert("WBEMMOF_E_UNEXPECTED_ARRAY_INIT"@.len() == 31);
            assert(!is_family_name("WBEMMOF_E_UNEXPECTED_ARRAY_INIT"@));
        },
        0x80044010u32 => {
            reveal_strlit("WBEMMOF_E_INVALID_AMENDMENT_SYNTAX");
            reveal_strlit("Namespace path syntax is not valid.");
            assert(WBEMMOF_E_INVALID_AMENDMENT_SYNTAX_EN@ == "Namespace path syntax is not valid."@);
            assert("WBEMMOF_E_INVALID_AMENDMENT_SYNTAX"@.len() == 34);
            assert(!is_family_name("WBEMMOF_E_INVALID_AMENDMENT_SYNTAX"@));
        },
        0x80044011u32 => {
            reveal_strlit("WBEMMOF_E_INVALID_DUPLICATE_AMENDMENT");
            reveal_strlit("Duplicate amendment specifiers.");
            assert(WBEMMOF_E_INVALID_DUPLICATE_AMENDMENT_EN@ == "Duplicate amendment specifiers."@);
            assert("WBEMMOF_E_INVALID_DUPLICATE_AMENDMENT"@.len() == 37);
            assert(!is_family_name("WBEMMOF_E_INVALID_DUPLICATE_AMENDMENT"@));
        },
        0x80044012u32 => {
            reveal_strlit("WBEMMOF_E_INVALID_PRAGMA");
            reveal_strlit("#pragma must be followed by a valid keyword.");
            assert(WBEMMOF_E_INVALID_PRAGMA_EN@ == "#pragma must be followed by a valid keyword."@);
            assert("WBEMMOF_E_INVALID_PRAGMA"@.len() == 24);
            assert(!is_family_name("WBEMMOF_E_INVALID_PRAGMA"@));
        },
        0x80044013u32 => {
            reveal_strlit("WBEMMOF_E_INVALID_NAMESPACE_SYNTAX");
            reveal_strlit("Namespace path syntax is not valid.");
            assert(WBEMMOF_E_INVALID_NAMESPACE_SYNTAX_EN@ == "Namespace path syntax is not valid."@);
            assert("WBEMMOF_E_INVALID_NAMESPACE_SYNTAX"@.len() == 34);
            assert(!is_family_name("WBEMMOF_E_INVALID_NAMESPACE_SYNTAX"@));
        },
        0x80044014u32 => {
            reveal_strlit("WBEMMOF_E_EXPECTED_CLASS_NAME");
            reveal_strlit("Unexpected character in class name must be an identifier.");
            assert(WBEMMOF_E_EXPECTED_CLASS_NAME_EN@ == "Unexpected character in class name must be an identifier."@);
            assert("WBEMMOF_E_EXPECTED_CLASS_NAME"@.len() == 29);
            assert(!is_family_name("WBEMMOF_E_EXPECTED_CLASS_NAME"@));
        },
        0x80044015u32 => {
            reveal_strlit("WBEMMOF_E_TYPE_MISMATCH");
            reveal_strlit("The value specified cannot be made into the appropriate type.");
            assert(WBEMMOF_E_TYPE_MISMATCH_EN@ == "The value specified cannot be made into the appropriate type."@);
            assert("WBEMMOF_E_TYPE_MISMATCH"@.len() == 23);
            assert(!is_family_name("WBEMMOF_E_TYPE_MISMATCH"@));
        },
        0x80044016u32 => {
            reveal_strlit("WBEMMOF_E_EXPECTED_ALIAS_NAME");
            reveal_strlit("Dollar sign must be followed by an alias name as an identifier.");
            assert(WBEMMOF_E_EXPECTED_ALIAS_NAME_EN@ == "Dollar sign must be followed by an alias name as an identifier."@);
            assert("WBEMMOF_E_EXPECTED_ALIAS_NAME"@.len() == 29);
            assert(!is_family_name("WBEMMOF_E_EXPECTED_ALIAS_NAME"@));
        },
        0x80044017u32 => {
            reveal_strlit("WBEMMOF_E_INVALID_CLASS_DECLARATION");
            reveal_strlit("Class declaration is not valid.");
            assert(WBEMMOF_E_INVALID_CLASS_DECLARATION_EN@ == "Class declaration is not valid."@);
            assert("WBEMMOF_E_INVALID_CLASS_DECLARATION"@.len() == 35);
            assert(!is_family_name("WBEMMOF_E_INVALID_CLASS_DECLARATION"@));
        },
        0x80044018u32 => {
            reveal_strlit("WBEMMOF_E_INVALID_INSTANCE_DECLARATION");
            reveal_strlit("The instance declaration is not valid. It must start with \"instance of\"");
            assert(WBEMMOF_E_INVALID_INSTANCE_DECLARATION_EN@ == "The instance declaration is not valid. It must start with \"instance of\""@);
            assert("WBEMMOF_E_INVALID_INSTANCE_DECLARATION"@.len() == 38);
            assert(!is_family_name("WBEMMOF_E_INVALID_INSTANCE_DECLARATION"@));
        },
        0x80044019u32 => {
            reveal_strlit("WBEMMOF_E_EXPECTED_DOLLAR");
            reveal_strlit("Expected dollar sign. An alias in the form \"$name\" must follow the \"as\" keyword.");
            assert(WBEMMOF_E_EXPECTED_DOLLAR_EN@ == "Expected dollar sign. An alias in the form \"$name\" must follow the \"as\" keyword."@);
            assert("WBEMMOF_E_EXPECTED_DOLLAR"@.len() == 25);
            assert(!is_family_name("WBEMMOF_E_EXPECTED_DOLLAR"@));
        },
        0x8004401Au32 => {
            reveal_strlit("WBEMMOF_E_CIMTYPE_QUALIFIER");
            reveal_strlit("\"CIMTYPE\" qualifier cannot be specified directly in a MOF file. Use standard type notation.");
            assert(WBEMMOF_E_CIMTYPE_QUALIFIER_EN@ == "\"CIMTYPE\" qualifier cannot be specified directly in a MOF file. Use standard type notation."@);
            assert("WBEMMOF_E_CIMTYPE_QUALIFIER"@.len() == 27);
            assert(!is_family_name("WBEMMOF_E_CIMTYPE_QUALIFIER"@));
        },
        0x8004401Bu32 => {
            reveal_strlit("WBEMMOF_E_DUPLICATE_PROPERTY");
            reveal_strlit("Duplicate property name was found in the MOF.");
            assert(WBEMMOF_E_DUPLICATE_PROPERTY_EN@ == "Duplicate property name was found in the MOF."@);
            assert("WBEMMOF_E_DUPLICATE_PROPERTY"@.len() == 28);
            assert(!is_family_name("WBEMMOF_E_DUPLICATE_PROPERTY"@));
        },
        0x8004401Cu32 => {
            reveal_strlit("WBEMMOF_E_INVALID_NAMESPACE_SPECIFICATION");
            reveal_strlit("Namespace syntax is not valid. References to other servers are not allowed.");
            assert(WBEMMOF_E_INVALID_NAMESPACE_SPECIFICATION_EN@ == "Namespace syntax is not valid. References to other servers are not allowed."@);
            assert("WBEMMOF_E_INVALID_NAMESPACE_SPECIFICATION"@.len() == 41);
            assert(!is_family_name("WBEMMOF_E_INVALID_NAMESPACE_SPECIFICATION"@));
        },
        0x8004401Du32 => {
            reveal_strlit("WBEMMOF_E_OUT_OF_RANGE");
            reveal_strlit("Value out of range.");
            assert(WBEMMOF_E_OUT_OF_RANGE_EN@ == "Value out of range."@);
            assert("WBEMMOF_E_OUT_OF_RANGE"@.len() == 22);
            assert(!is_family_name("WBEMMOF_E_OUT_OF_RANGE"@));
        },
        0x8004401Eu32 => {
            reveal_strlit("WBEMMOF_E_INVALID_FILE");
            reveal_strlit("The file is not a valid text MOF file or binary MOF file.");
            assert(WBEMMOF_E_INVALID_FILE_EN@ == "The file is not a valid text MOF file or binary MOF file."@);
            assert("WBEMMOF_E_INVALID_FILE"@.len() == 22);
            assert(!is_family_name("WBEMMOF_E_INVALID_FILE"@));
        },
        0x8004401Fu32 => {
            reveal_strlit("WBEMMOF_E_ALIASES_IN_EMBEDDED");
            reveal_strlit("Embedded objects cannot be aliases.");
            assert(WBEMMOF_E_ALIASES_IN_EMBEDDED_EN@ == "Embedded objects cannot be aliases."@);
            assert("WBEMMOF_E_ALIASES_IN_EMBEDDED"@.len() == 29);
            assert(!is_family_name("WBEMMOF_E_ALIASES_IN_EMBEDDED"@));
        },
        0x80044020u32 => {
            reveal_strlit("WBEMMOF_E_NULL_ARRAY_ELEM");
            reveal_strlit("NULL elements in an array are not supported.");
            assert(WBEMMOF_E_NULL_ARRAY_ELEM_EN@ == "NULL elements in an array are not supported."@);
            assert("WBEMMOF_E_NULL_ARRAY_ELEM"@.len() == 25);
            assert(!is_family_name("WBEMMOF_E_NULL_ARRAY_ELEM"@));
        },
        0x80044021u32 => {
            reveal_strlit("WBEMMOF_E_DUPLICATE_QUALIFIER");
            reveal_strlit("Qualifier was used more than once on the object.");
            assert(WBEMMOF_E_DUPLICATE_QUALIFIER_EN@ == "Qualifier was used more than once on the object."@);
            assert("WBEMMOF_E_DUPLICATE_QUALIFIER"@.len() == 29);
            assert(!is_family_name("WBEMMOF_E_DUPLICATE_QUALIFIER"@));
        },
        0x80044022u32 => {
            reveal_strlit("WBEMMOF_E_EXPECTED_FLAVOR_TYPE");
            reveal_strlit("Expected a flavor type such as ToInstance, ToSubClass, EnableOverride, or DisableOverride.");
            assert(WBEMMOF_E_EXPECTED_FLAVOR_TYPE_EN@ == "Expected a flavor type such as ToInstance, ToSubClass, EnableOverride, or DisableOverride."@);
            assert("WBEMMOF_E_EXPECTED_FLAVOR_TYPE"@.len() == 30);
            assert(!is_family_name("WBEMMOF_E_EXPECTED_FLAVOR_TYPE"@));
        },
        0x80044023u32 => {
            reveal_strlit("WBEMMOF_E_INCOMPATIBLE_FLAVOR_TYPES");
            reveal_strlit("Combining EnableOverride and DisableOverride on same qualifier is not legal.");
            assert(WBEMMOF_E_INCOMPATIBLE_FLAVOR_TYPES_EN@ == "Combining EnableOverride and DisableOverride on same qualifier is not legal."@);
            assert("WBEMMOF_E_INCOMPATIBLE_FLAVOR_TYPES"@.len() == 35);
            assert(!is_family_name("WBEMMOF_E_INCOMPATIBLE_FLAVOR_TYPES"@));
        },
        0x80044024u32 => {
            reveal_strlit("WBEMMOF_E_MULTIPLE_ALIASES");
            reveal_strlit("An alias cannot be used twice.");
            assert(WBEMMOF_E_MULTIPLE_ALIASES_EN@ == "An alias cannot be used twice."@);
            assert("WBEMMOF_E_MULTIPLE_ALIASES"@.len() == 26);
            assert(!is_family_name("WBEMMOF_E_MULTIPLE_ALIASES"@));
        },
        0x80044025u32 => {
            reveal_strlit("WBEMMOF_E_INCOMPATIBLE_FLAVOR_TYPES2");
            reveal_strlit("Combining Restricted, and ToInstance or ToSubClass is not legal.");
            assert(WBEMMOF_E_INCOMPATIBLE_FLAVOR_TYPES2_EN@ == "Combining Restricted, and ToInstance or ToSubClass is not legal."@);
            assert("WBEMMOF_E_INCOMPATIBLE_FLAVOR_TYPES2"@.len() == 36);
            assert(!is_family_name("WBEMMOF_E_INCOMPATIBLE_FLAVOR_TYPES2"@));
        },
        0x80044026u32 => {
            reveal_strlit("WBEMMOF_E_NO_ARRAYS_RETURNED");
            reveal_strlit("Methods cannot return array values.");
            assert(WBEMMOF_E_NO_ARRAYS_RETURNED_EN@ == "Methods cannot return array values."@);
            assert("WBEMMOF_E_NO_ARRAYS_RETURNED"@.len() == 28);
            assert(!is_family_name("WBEMMOF_E_NO_ARRAYS_RETURNED"@));
        },
        0x80044027u32 => {
            reveal_strlit("WBEMMOF_E_MUST_BE_IN_OR_OUT");
            reveal_strlit("Arguments must have an In or Out qualifier.");
            assert(WBEMMOF_E_MUST_BE_IN_OR_OUT_EN@ == "Arguments must have an In or Out qualifier."@);
            assert("WBEMMOF_E_MUST_BE_IN_OR_OUT"@.len() == 27);
            assert(!is_family_name("WBEMMOF_E_MUST_BE_IN_OR_OUT"@));
        },
        0x80044028u32 => {
            reveal_strlit("WBEMMOF_E_INVALID_FLAGS_SYNTAX");
            reveal_strlit("Flags syntax is not valid.");
            assert(WBEMMOF_E_INVALID_FLAGS_SYNTAX_EN@ == "Flags syntax is not valid."@);
            assert("WBEMMOF_E_INVALID_FLAGS_SYNTAX"@.len() == 30);
            assert(!is_family_name("WBEMMOF_E_INVALID_FLAGS_SYNTAX"@));
        },
        0x80044029u32 => {
            reveal_strlit("WBEMMOF_E_EXPECTED_BRACE_OR_BAD_TYPE");
            reveal_strlit("The final brace and semi-colon for a class are missing.");
            assert(WBEMMOF_E_EXPECTED_BRACE_OR_BAD_TYPE_EN@ == "The final brace and semi-colon for a class are missing."@);
            assert("WBEMMOF_E_EXPECTED_BRACE_OR_BAD_TYPE"@.len() == 36);
            assert(!is_family_name("WBEMMOF_E_EXPECTED_BRACE_OR_BAD_TYPE"@));
        },
        0x8004402Au32 => {
            reveal_strlit("WBEMMOF_E_UNSUPPORTED_CIMV22_QUAL_VALUE");
            reveal_strlit("A CIM version 2.2 feature is not supported for a qualifier value.");
            assert(WBEMMOF_E_UNSUPPORTED_CIMV22_QUAL_VALUE_EN@ == "A CIM version 2.2 feature is not supported for a qualifier value."@);
            assert("WBEMMOF_E_UNSUPPORTED_CIMV22_QUAL_VALUE"@.len() == 39);
            assert(!is_family_name("WBEMMOF_E_UNSUPPORTED_CIMV22_QUAL_VALUE"@));
        },
        0x8004402Bu32 => {
            reveal_strlit("WBEMMOF_E_UNSUPPORTED_CIMV22_DATA_TYPE");
            reveal_strlit("The CIM version 2.2 data type is not supported.");
            assert(WBEMMOF_E_UNSUPPORTED_CIMV22_DATA_TYPE_EN@ == "The CIM version 2.2 data type is not supported."@);
            assert("WBEMMOF_E_UNSUPPORTED_CIMV22_DATA_TYPE"@.len() == 38);
            assert(!is_family_name("WBEMMOF_E_UNSUPPORTED_CIMV22_DATA_TYPE"@));
        },
        0x8004402Cu32 => {
            reveal_strlit("WBEMMOF_E_INVALID_DELETEINSTANCE_SYNTAX");
            reveal_strlit("The delete instance syntax is not valid. It should be #pragma \
    DeleteInstance(\"instancepath\", FAIL|NOFAIL)");
            assert(WBEMMOF_E_INVALID_DELETEINSTANCE_SYNTAX_EN@ == "The delete instance syntax is not valid. It should be #pragma \
    DeleteInstance(\"instancepath\", FAIL|NOFAIL)"@);
            assert("WBEMMOF_E_INVALID_DELETEINSTANCE_SYNTAX"@.len() == 39);
            assert(!is_family_name("WBEMMOF_E_INVALID_DELETEINSTANCE_SYNTAX"@));
        },
        0x8004402Du32 => {
            reveal_strlit("WBEMMOF_E_INVALID_QUALIFIER_SYNTAX");
            reveal_strlit("The qualifier syntax is not valid. It should be \
    qualifiername:type=value,scope(class|instance), flavorname .");
            assert(WBEMMOF_E_INVALID_QUALIFIER_SYNTAX_EN@ == "The qualifier syntax is not valid. It should be \
    qualifiername:type=value,scope(class|instance), flavorname ."@);
            assert("WBEMMOF_E_INVALID_QUALIFIER_SYNTAX"@.len() == 34);
            assert(!is_family_name("WBEMMOF_E_INVALID_QUALIFIER_SYNTAX"@));
        },
        0x8004402Eu32 => {
            reveal_strlit("WBEMMOF_E_QUALIFIER_USED_OUTSIDE_SCOPE");
            reveal_strlit("The qualifier is used outside of its scope.");
            assert(WBEMMOF_E_QUALIFIER_USED_OUTSIDE_SCOPE_EN@ == "The qualifier is used outside of its scope."@);
            assert("WBEMMOF_E_QUALIFIER_USED_OUTSIDE_SCOPE"@.len() == 38);
            assert(!is_family_name("WBEMMOF_E_QUALIFIER_USED_OUTSIDE_SCOPE"@));
        },
        0x8004402Fu32 => {
            reveal_strlit("WBEMMOF_E_ERROR_CREATING_TEMP_FILE");
            reveal_strlit("Error creating temporary file. The temporary file is an intermediate stage in the MOF \
    compilation.");
            assert(WBEMMOF_E_ERROR_CREATING_TEMP_FILE_EN@ == "Error creating temporary file. The temporary file is an intermediate stage in the MOF \
    compilation."@);
            assert("WBEMMOF_E_ERROR_CREATING_TEMP_FILE"@.len() == 34);
            assert(!is_family_name("WBEMMOF_E_ERROR_CREATING_TEMP_FILE"@));
        },
        0x80044030u32 => {
            reveal_strlit("WBEMMOF_E_ERROR_INVALID_INCLUDE_FILE");
            reveal_strlit("A file included in the MOF by the preprocessor command #include is not valid.");
            assert(WBEMMOF_E_ERROR_INVALID_INCLUDE_FILE_EN@ == "A file included in the MOF by the preprocessor command #include is not valid."@);
            assert("WBEMMOF_E_ERROR_INVALID_INCLUDE_FILE"@.len() == 36);
            assert(!is_family_name("WBEMMOF_E_ERROR_INVALID_INCLUDE_FILE"@));
        },
        0x80044031u32 => {
            reveal_strlit("WBEMMOF_E_INVALID_DELETECLASS_SYNTAX");
            reveal_strlit("The syntax for the preprocessor commands #pragma deleteinstance or #pragma deleteclass is not \
    valid.");
            assert(WBEMMOF_E_INVALID_DELETECLASS_SYNTAX_EN@ == "The syntax for the preprocessor commands #pragma deleteinstance or #pragma deleteclass is not \
    valid."@);
            assert("WBEMMOF_E_INVALID_DELETECLASS_SYNTAX"@.len() == 36);
            assert(!is_family_name("WBEMMOF_E_INVALID_DELETECLASS_SYNTAX"@));
        },
        0x80043001u32 => {
            reveal_strlit("WBEM_E_RETRY_LATER");
            reveal_strlit("Reserved for future use.");
            assert(WBEM_E_RETRY_LATER_EN@ == "Reserved for future use."@);
            assert("WBEM_E_RETRY_LATER"@.len() == 18);
            assert(!is_family_name("WBEM_E_RETRY_LATER"@));
        },
        0x80043002u32 => {
            reveal_strlit("WBEM_E_RESOURCE_CONTENTION");
            reveal_strlit("Reserved for future use.");
            assert(WBEM_E_RESOURCE_CONTENTION_EN@ == "Reserved for future use."@);
            assert("WBEM_E_RESOURCE_CONTENTION"@.len() == 26);
            assert(!is_family_name("WBEM_E_RESOURCE_CONTENTION"@));
        },
        _ => {},
    }
}

/// `to_detail` gives a non-empty description exactly for the codes that
/// `to_class` names by their WMI status constant, and the empty text for
/// every code that it puts in a family (`"WMI"`, `"OS"`, `"DCOM"`,
/// `"ADSI/LDAP"` or `"UNKNOWN"`).
pub proof fn lemma_detail_exactly_for_named_codes(hres: i32)
    ensures
        hres_detail(hres as u32).len() > 0 <==> !is_family_name(hres_class(hres as u32)),
{
    lemma_status_entry(hres as u32);
}

} // verus!
